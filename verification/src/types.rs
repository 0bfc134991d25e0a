//! The data the escrow keeps and reports.

use vstd::prelude::*;

verus! {

/// An account or contract, known to the escrow by a stable numeric handle.
#[derive(Copy, Clone, Debug, PartialEq, Eq, Structural, Hash)]
pub struct Address {
    pub id: u64,
}

/// The errors that escrow entrypoints report.
#[derive(Copy, Clone, Debug, PartialEq, Eq, Structural)]
pub enum Error {
    AlreadyInitialized,
    NotInitialized,
    BountyExists,
    BountyNotFound,
    FundsNotLocked,
    DeadlineNotPassed,
    Unauthorized,
    InvalidFeeRate,
    FeeRecipientNotSet,
    InvalidBatchSize,
    BatchSizeMismatch,
    DuplicateBountyId,
    /// The amount is zero, negative, or exceeds what is available.
    InvalidAmount,
    /// The deadline is in the past or too far in the future.
    InvalidDeadline,
    /// Reserved, keeps the code sequence contiguous.
    Reserved,
    /// The contract holds too little for the operation.
    InsufficientFunds,
    /// A refund was attempted without admin approval.
    RefundNotApproved,
    FundsPaused,
    /// The lock amount is below the configured minimum.
    AmountBelowMinimum,
    /// The lock amount is above the configured maximum.
    AmountAboveMaximum,
    NotPaused,
    /// A pending claim blocks the operation.
    ClaimPending,
    TicketNotFound,
    /// The claim ticket was already used.
    TicketAlreadyUsed,
    TicketExpired,
    CapabilityNotFound,
    CapabilityExpired,
    CapabilityRevoked,
    CapabilityActionMismatch,
    CapabilityAmountExceeded,
    CapabilityUsesExhausted,
    CapabilityExceedsAuthority,
    InvalidAssetId,
    /// The escrow is locked by its owner or the admin.
    EscrowLocked,
    /// The clone source does not exist.
    CloneSourceNotFound,
    /// The archive cooldown has not elapsed.
    ArchiveCooldownNotElapsed,
}

/// The numeric code of each error, in declaration order from 1.
pub open spec fn error_code(e: Error) -> u32 {
    match e {
        Error::AlreadyInitialized => 1,
        Error::NotInitialized => 2,
        Error::BountyExists => 3,
        Error::BountyNotFound => 4,
        Error::FundsNotLocked => 5,
        Error::DeadlineNotPassed => 6,
        Error::Unauthorized => 7,
        Error::InvalidFeeRate => 8,
        Error::FeeRecipientNotSet => 9,
        Error::InvalidBatchSize => 10,
        Error::BatchSizeMismatch => 11,
        Error::DuplicateBountyId => 12,
        Error::InvalidAmount => 13,
        Error::InvalidDeadline => 14,
        Error::Reserved => 15,
        Error::InsufficientFunds => 16,
        Error::RefundNotApproved => 17,
        Error::FundsPaused => 18,
        Error::AmountBelowMinimum => 19,
        Error::AmountAboveMaximum => 20,
        Error::NotPaused => 21,
        Error::ClaimPending => 22,
        Error::TicketNotFound => 23,
        Error::TicketAlreadyUsed => 24,
        Error::TicketExpired => 25,
        Error::CapabilityNotFound => 26,
        Error::CapabilityExpired => 27,
        Error::CapabilityRevoked => 28,
        Error::CapabilityActionMismatch => 29,
        Error::CapabilityAmountExceeded => 30,
        Error::CapabilityUsesExhausted => 31,
        Error::CapabilityExceedsAuthority => 32,
        Error::InvalidAssetId => 33,
        Error::EscrowLocked => 34,
        Error::CloneSourceNotFound => 35,
        Error::ArchiveCooldownNotElapsed => 36,
    }
}

impl Error {
    /// The numeric code under which this error is reported.
    pub fn code(&self) -> (c: u32)
        ensures
            c == error_code(*self),
    {
        match self {
            Error::AlreadyInitialized => 1,
            Error::NotInitialized => 2,
            Error::BountyExists => 3,
            Error::BountyNotFound => 4,
            Error::FundsNotLocked => 5,
            Error::DeadlineNotPassed => 6,
            Error::Unauthorized => 7,
            Error::InvalidFeeRate => 8,
            Error::FeeRecipientNotSet => 9,
            Error::InvalidBatchSize => 10,
            Error::BatchSizeMismatch => 11,
            Error::DuplicateBountyId => 12,
            Error::InvalidAmount => 13,
            Error::InvalidDeadline => 14,
            Error::Reserved => 15,
            Error::InsufficientFunds => 16,
            Error::RefundNotApproved => 17,
            Error::FundsPaused => 18,
            Error::AmountBelowMinimum => 19,
            Error::AmountAboveMaximum => 20,
            Error::NotPaused => 21,
            Error::ClaimPending => 22,
            Error::TicketNotFound => 23,
            Error::TicketAlreadyUsed => 24,
            Error::TicketExpired => 25,
            Error::CapabilityNotFound => 26,
            Error::CapabilityExpired => 27,
            Error::CapabilityRevoked => 28,
            Error::CapabilityActionMismatch => 29,
            Error::CapabilityAmountExceeded => 30,
            Error::CapabilityUsesExhausted => 31,
            Error::CapabilityExceedsAuthority => 32,
            Error::InvalidAssetId => 33,
            Error::EscrowLocked => 34,
            Error::CloneSourceNotFound => 35,
            Error::ArchiveCooldownNotElapsed => 36,
        }
    }
}

/// Descriptive tags attached to an escrow.
#[derive(Clone, Debug)]
pub struct EscrowMetadata {
    pub repo_id: u64,
    pub issue_id: u64,
    pub bounty_type: String,
}

/// Where an escrow stands in its life.
#[derive(Copy, Clone, Debug, PartialEq, Eq, Structural)]
pub enum EscrowStatus {
    Locked,
    Released,
    Refunded,
    PartiallyRefunded,
    /// Created by cloning; holds no funds yet.
    Template,
}

/// Whether a refund returned everything that was asked or a part.
#[derive(Copy, Clone, Debug, PartialEq, Eq, Structural)]
pub enum RefundMode {
    Full,
    Partial,
}

/// One refund paid out of an escrow.
#[derive(Copy, Clone, Debug, PartialEq, Eq, Structural)]
pub struct RefundRecord {
    pub amount: i128,
    pub recipient: Address,
    pub timestamp: u64,
    pub mode: RefundMode,
}

/// The funds locked for one bounty.
#[derive(Clone, Debug)]
pub struct Escrow {
    pub depositor: Address,
    /// Total amount originally locked.
    pub amount: i128,
    /// Amount still available; decremented by partial payouts and refunds.
    pub remaining_amount: i128,
    pub status: EscrowStatus,
    pub deadline: u64,
    pub refund_history: Vec<RefundRecord>,
}

/// An escrow as a mathematical value.
pub struct EscrowView {
    pub depositor: Address,
    pub amount: i128,
    pub remaining_amount: i128,
    pub status: EscrowStatus,
    pub deadline: u64,
    pub refund_history: Seq<RefundRecord>,
}

impl View for Escrow {
    type V = EscrowView;

    open spec fn view(&self) -> EscrowView {
        EscrowView {
            depositor: self.depositor,
            amount: self.amount,
            remaining_amount: self.remaining_amount,
            status: self.status,
            deadline: self.deadline,
            refund_history: self.refund_history@,
        }
    }
}

/// Copies a refund history record by record.
pub fn copy_refund_history(h: &Vec<RefundRecord>) -> (r: Vec<RefundRecord>)
    ensures
        r@ == h@,
{
    let mut r: Vec<RefundRecord> = Vec::new();
    let mut i: usize = 0;
    while i < h.len()
        invariant
            i <= h.len(),
            r@ == h@.take(i as int),
        decreases h.len() - i,
    {
        r.push(h[i]);
        i = i + 1;
        proof {
            assert(h@.take(i as int) == h@.take((i - 1) as int).push(h@[i - 1]));
        }
    }
    proof {
        assert(h@.take(h@.len() as int) == h@);
    }
    r
}

impl Escrow {
    /// A field-by-field copy of this escrow.
    pub fn duplicate(&self) -> (r: Escrow)
        ensures
            r@ == self@,
    {
        Escrow {
            depositor: self.depositor,
            amount: self.amount,
            remaining_amount: self.remaining_amount,
            status: self.status,
            deadline: self.deadline,
            refund_history: copy_refund_history(&self.refund_history),
        }
    }
}

/// The per-escrow sanity conditions: the amounts are non-negative, what
/// remains never exceeds what was locked, and a released escrow holds nothing.
pub open spec fn escrow_sane(e: EscrowView) -> bool {
    &&& 0 <= e.amount
    &&& 0 <= e.remaining_amount
    &&& e.remaining_amount <= e.amount
    &&& (e.status == EscrowStatus::Released ==> e.remaining_amount == 0)
}

/// Checks the per-escrow sanity conditions.
pub fn verify_escrow_invariants(e: &Escrow) -> (b: bool)
    ensures
        b == escrow_sane(e@),
{
    e.amount >= 0 && e.remaining_amount >= 0 && e.remaining_amount <= e.amount && (
    e.status != EscrowStatus::Released || e.remaining_amount == 0)
}

/// An escrow together with its bounty identifier.
#[derive(Clone, Debug)]
pub struct EscrowWithId {
    pub bounty_id: u64,
    pub escrow: Escrow,
}

/// The operations that can be paused one by one.
#[derive(Copy, Clone, Debug, PartialEq, Eq, Structural)]
pub enum PauseOperation {
    Lock,
    Release,
    Refund,
}

/// The pause switches of the contract.
#[derive(Clone, Debug)]
pub struct PauseFlags {
    pub lock_paused: bool,
    pub release_paused: bool,
    pub refund_paused: bool,
    pub pause_reason: Option<String>,
    pub paused_at: u64,
}

/// Totals over all escrows, by status.
#[derive(Copy, Clone, Debug, PartialEq, Eq, Structural)]
pub struct AggregateStats {
    pub total_locked: i128,
    pub total_released: i128,
    pub total_refunded: i128,
    pub count_locked: u32,
    pub count_released: u32,
    pub count_refunded: u32,
}

/// An owner lock on one escrow, distinct from the global pause.
#[derive(Clone, Debug)]
pub struct EscrowLockState {
    pub locked: bool,
    pub locked_until: Option<u64>,
    pub locked_reason: Option<String>,
    pub locked_by: Address,
}

/// The auto-archive policy.
#[derive(Copy, Clone, Debug, PartialEq, Eq, Structural)]
pub struct AutoArchiveConfig {
    pub enabled: bool,
    pub cooldown_seconds: u64,
}

/// The public view of the rate-limit configuration.
#[derive(Copy, Clone, Debug, PartialEq, Eq, Structural)]
pub struct AntiAbuseConfigView {
    pub window_size: u64,
    pub max_operations: u32,
    pub cooldown_period: u64,
}

/// Fee rates in basis points and where fees go.
#[derive(Copy, Clone, Debug, PartialEq, Eq, Structural)]
pub struct FeeConfig {
    pub lock_fee_rate: i128,
    pub release_fee_rate: i128,
    pub fee_recipient: Address,
    pub fee_enabled: bool,
}

/// Multisignature policy for large releases.
#[derive(Clone, Debug)]
pub struct MultisigConfig {
    pub threshold_amount: i128,
    pub signers: Vec<Address>,
    pub required_signatures: u32,
}

/// A period during which other fee rates apply. Nothing in the escrow reads
/// it yet.
#[derive(Clone, Debug)]
pub struct PromotionalPeriod {
    pub id: u64,
    pub name: String,
    pub start_time: u64,
    pub end_time: u64,
    /// The lock fee rate during the period (0 for none).
    pub lock_fee_rate: i128,
    /// The release fee rate during the period (0 for none).
    pub release_fee_rate: i128,
    /// Whether the period applies to all operations.
    pub is_global: bool,
    /// Whether the period is in force.
    pub enabled: bool,
}

/// The signers that approved a large release.
#[derive(Clone, Debug)]
pub struct ReleaseApproval {
    pub bounty_id: u64,
    pub contributor: Address,
    pub approvals: Vec<Address>,
}

/// Why a claim was opened.
#[derive(Copy, Clone, Debug, PartialEq, Eq, Structural)]
pub enum DisputeReason {
    QualityIssue,
    IncompleteWork,
    DeadlineMissed,
    ParticipantFraud,
    Other,
}

/// How a claim ended.
#[derive(Copy, Clone, Debug, PartialEq, Eq, Structural)]
pub enum DisputeOutcome {
    ResolvedByPayout,
    ResolvedByRefund,
    CancelledByAdmin,
    NoActionTaken,
}

/// A release authorized as a claim that its recipient must collect in time.
#[derive(Copy, Clone, Debug, PartialEq, Eq, Structural)]
pub struct ClaimRecord {
    pub bounty_id: u64,
    pub recipient: Address,
    pub amount: i128,
    pub expires_at: u64,
    pub claimed: bool,
    pub reason: DisputeReason,
}

/// What a capability lets its holder do.
#[derive(Copy, Clone, Debug, PartialEq, Eq, Structural)]
pub enum CapabilityAction {
    Claim,
    Release,
    Refund,
}

/// A bounded, expiring delegation of one action on one escrow.
#[derive(Copy, Clone, Debug, PartialEq, Eq, Structural)]
pub struct Capability {
    pub owner: Address,
    pub holder: Address,
    pub action: CapabilityAction,
    pub bounty_id: u64,
    pub amount_limit: i128,
    pub remaining_amount: i128,
    pub expiry: u64,
    pub remaining_uses: u32,
    pub revoked: bool,
}

/// An admin's approval of an early or partial refund.
#[derive(Copy, Clone, Debug, PartialEq, Eq, Structural)]
pub struct RefundApproval {
    pub bounty_id: u64,
    pub amount: i128,
    pub recipient: Address,
    pub mode: RefundMode,
    pub approved_by: Address,
    pub approved_at: u64,
}

/// What a dry run of lock, release or refund reports.
#[derive(Copy, Clone, Debug, PartialEq, Eq, Structural)]
pub struct SimulationResult {
    /// Whether the operation would succeed.
    pub success: bool,
    /// The code of the error that would be returned, 0 on success.
    pub error_code: u32,
    /// The amount that would be transferred.
    pub amount: i128,
    /// The escrow status after the operation.
    pub resulting_status: EscrowStatus,
    /// The remaining amount after the operation.
    pub remaining_amount: i128,
}

/// A single-use ticket by which a bounty winner collects a reward.
#[derive(Copy, Clone, Debug, PartialEq, Eq, Structural)]
pub struct ClaimTicket {
    pub ticket_id: u64,
    pub bounty_id: u64,
    pub beneficiary: Address,
    pub amount: i128,
    pub expires_at: u64,
    pub used: bool,
    pub issued_at: u64,
}

/// One entry of a batch lock.
#[derive(Copy, Clone, Debug, PartialEq, Eq, Structural)]
pub struct LockFundsItem {
    pub bounty_id: u64,
    pub depositor: Address,
    pub amount: i128,
    pub deadline: u64,
}

/// One entry of a batch release.
#[derive(Copy, Clone, Debug, PartialEq, Eq, Structural)]
pub struct ReleaseFundsItem {
    pub bounty_id: u64,
    pub contributor: Address,
}

} // verus!
