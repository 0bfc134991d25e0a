//! What an entrypoint asks of its environment: the authorizations it
//! demands, the token transfers it performs and the events it emits.

use vstd::prelude::*;
use crate::types::{Address, CapabilityAction, DisputeOutcome, DisputeReason, Error, PauseOperation};

verus! {

/// A movement of the escrowed token between an account and the escrow.
#[derive(Copy, Clone, Debug, PartialEq, Eq, Structural)]
pub enum Transfer {
    /// `amount` moves from `from` into the escrow.
    Deposit { from: Address, amount: i128 },
    /// `amount` moves from the escrow to `to`.
    Payout { to: Address, amount: i128 },
}

/// What a transfer changes in the escrow's token holdings: a deposit adds
/// its amount, a payout takes its amount away.
pub open spec fn flow_of(t: Transfer) -> int {
    match t {
        Transfer::Deposit { amount, .. } => amount as int,
        Transfer::Payout { amount, .. } => -(amount as int),
    }
}

/// The net change in the escrow's token holdings over a list of transfers.
pub open spec fn net_flow(ts: Seq<Transfer>) -> int
    decreases ts.len(),
{
    if ts.len() == 0 {
        0
    } else {
        net_flow(ts.drop_last()) + flow_of(ts.last())
    }
}

/// Appending a transfer adds its change to the net change.
pub proof fn lemma_net_flow_push(ts: Seq<Transfer>, t: Transfer)
    ensures
        net_flow(ts.push(t)) == net_flow(ts) + flow_of(t),
{
    assert(ts.push(t).drop_last() =~= ts);
}

/// The net change over a single transfer is that transfer's change.
pub proof fn lemma_net_flow_one(t: Transfer)
    ensures
        net_flow(seq![t]) == flow_of(t),
{
    lemma_net_flow_push(Seq::<Transfer>::empty(), t);
    assert(Seq::<Transfer>::empty().push(t) =~= seq![t]);
}

/// The kind of operation that a metric or batch summary counts.
#[derive(Copy, Clone, Debug, PartialEq, Eq, Structural)]
pub enum OperationKind {
    Lock,
    Release,
    Refund,
}

/// One action inside a batch summary event.
#[derive(Copy, Clone, Debug, PartialEq, Eq, Structural)]
pub struct ActionSummary {
    pub bounty_id: u64,
    pub kind: OperationKind,
    pub amount: i128,
    pub timestamp: u64,
}

/// Which operation a fee was taken on.
#[derive(Copy, Clone, Debug, PartialEq, Eq, Structural)]
pub enum FeeOperationType {
    Lock,
    Release,
}

/// Summary of a batch of locks.
#[derive(Copy, Clone, Debug, PartialEq, Eq, Structural)]
pub struct BatchFundsLocked {
    pub count: u32,
    pub total_amount: i128,
    pub timestamp: u64,
}

/// Summary of a batch of releases.
#[derive(Copy, Clone, Debug, PartialEq, Eq, Structural)]
pub struct BatchFundsReleased {
    pub count: u32,
    pub total_amount: i128,
    pub timestamp: u64,
}

/// The events the escrow emits.
#[allow(inconsistent_fields)]
#[derive(Clone, Debug)]
pub enum Event {
    Initialized { admin: Address, token: Address, timestamp: u64 },
    FundsLocked { bounty_id: u64, amount: i128, depositor: Address, deadline: u64 },
    FundsReleased { bounty_id: u64, amount: i128, recipient: Address, timestamp: u64 },
    FundsRefunded { bounty_id: u64, amount: i128, refund_to: Address, timestamp: u64 },
    FeeConfigUpdated {
        lock_fee_rate: i128,
        release_fee_rate: i128,
        fee_recipient: Address,
        fee_enabled: bool,
        timestamp: u64,
    },
    PauseStateChanged {
        operation: PauseOperation,
        paused: bool,
        admin: Address,
        reason: Option<String>,
        timestamp: u64,
    },
    EmergencyWithdraw { admin: Address, recipient: Address, amount: i128, timestamp: u64 },
    EscrowLocked {
        bounty_id: u64,
        locked_by: Address,
        locked_until: Option<u64>,
        reason: Option<String>,
        timestamp: u64,
    },
    EscrowUnlocked { bounty_id: u64, unlocked_by: Address, timestamp: u64 },
    /// `released` tells whether the archived escrow ended released or refunded.
    EscrowArchived { bounty_id: u64, released: bool, archived_at: u64 },
    EscrowCloned { source_bounty_id: u64, new_bounty_id: u64, new_owner: Address, timestamp: u64 },
    CapabilityIssued {
        capability_id: u64,
        owner: Address,
        holder: Address,
        action: CapabilityAction,
        bounty_id: u64,
        amount_limit: i128,
        expires_at: u64,
        max_uses: u32,
        timestamp: u64,
    },
    CapabilityUsed {
        capability_id: u64,
        holder: Address,
        action: CapabilityAction,
        bounty_id: u64,
        amount_used: i128,
        remaining_amount: i128,
        remaining_uses: u32,
        used_at: u64,
    },
    CapabilityRevoked { capability_id: u64, owner: Address, revoked_at: u64 },
    ApprovalAdded { bounty_id: u64, contributor: Address, approver: Address, timestamp: u64 },
    ClaimCreated {
        bounty_id: u64,
        recipient: Address,
        amount: i128,
        expires_at: u64,
        reason: DisputeReason,
    },
    ClaimExecuted {
        bounty_id: u64,
        recipient: Address,
        amount: i128,
        claimed_at: u64,
        outcome: DisputeOutcome,
    },
    ClaimCancelled {
        bounty_id: u64,
        recipient: Address,
        amount: i128,
        cancelled_at: u64,
        cancelled_by: Address,
        outcome: DisputeOutcome,
    },
    TicketIssued {
        ticket_id: u64,
        bounty_id: u64,
        beneficiary: Address,
        amount: i128,
        expires_at: u64,
        issued_at: u64,
    },
    TicketClaimed {
        ticket_id: u64,
        bounty_id: u64,
        beneficiary: Address,
        amount: i128,
        claimed_at: u64,
    },
    FeeCollected {
        operation_type: FeeOperationType,
        amount: i128,
        fee_rate: i128,
        recipient: Address,
        timestamp: u64,
    },
    BatchFundsLocked(BatchFundsLocked),
    BatchFundsReleased(BatchFundsReleased),
    EventBatch {
        kind: OperationKind,
        actions: Vec<ActionSummary>,
        total_amount: i128,
        timestamp: u64,
    },
    /// A recorded call duration of the function with symbol code `function`.
    PerformanceMetric { function: u64, duration: u64, timestamp: u64 },
    /// A tracked operation; `caller` is `None` when the contract itself acted.
    OperationMetric {
        operation: OperationKind,
        caller: Option<Address>,
        timestamp: u64,
        success: bool,
    },
}

/// What an entrypoint did: its result, the authorizations it demanded (in
/// order, also those demanded before it failed), and, when it succeeded, the
/// transfers to perform and the events to emit.
pub struct Outcome<T> {
    pub result: Result<T, Error>,
    pub auths: Vec<Address>,
    pub transfers: Vec<Transfer>,
    pub events: Vec<Event>,
}

impl<T> Outcome<T> {
    /// A failure after the given authorizations were demanded.
    pub fn fail(e: Error, auths: Vec<Address>) -> (o: Outcome<T>)
        ensures
            o.result == Err::<T, Error>(e),
            o.auths@ == auths@,
            o.transfers@.len() == 0,
            o.events@.len() == 0,
    {
        Outcome { result: Err(e), auths, transfers: Vec::new(), events: Vec::new() }
    }

    /// A failure that demanded no authorization.
    pub fn fail_early(e: Error) -> (o: Outcome<T>)
        ensures
            o.result == Err::<T, Error>(e),
            o.auths@.len() == 0,
            o.transfers@.len() == 0,
            o.events@.len() == 0,
    {
        Outcome { result: Err(e), auths: Vec::new(), transfers: Vec::new(), events: Vec::new() }
    }
}

/// A sequence holding one authorization.
pub fn auth_of(a: Address) -> (v: Vec<Address>)
    ensures
        v@ == seq![a],
{
    let mut v = Vec::new();
    v.push(a);
    v
}

/// A sequence holding one transfer.
pub fn one_transfer(t: Transfer) -> (v: Vec<Transfer>)
    ensures
        v@ == seq![t],
{
    let mut v = Vec::new();
    v.push(t);
    v
}

/// A sequence holding one event.
pub fn one_event(e: Event) -> (v: Vec<Event>)
    ensures
        v@ == seq![e],
{
    let mut v = Vec::new();
    v.push(e);
    v
}

} // verus!
