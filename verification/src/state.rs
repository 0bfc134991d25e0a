//! The state of the escrow contract and its read-only views.

use vstd::prelude::*;
use std::collections::HashMap;
use std::collections::HashSet;
use crate::types::{
    Address, AntiAbuseConfigView, AutoArchiveConfig, Capability, ClaimRecord, ClaimTicket,
    Error, Escrow, EscrowLockState, EscrowMetadata, EscrowStatus, FeeConfig, MultisigConfig,
    EscrowView, PauseFlags, PauseOperation, RefundApproval, ReleaseApproval, escrow_sane,
};

verus! {

broadcast use vstd::std_specs::hash::group_hash_axioms;

/// Rate-limit settings: a window length, the operations allowed in a
/// window, and the minimum time between two operations of one address.
#[derive(Copy, Clone, Debug, PartialEq, Eq, Structural)]
pub struct AntiAbuseConfig {
    pub window_size: u64,
    pub max_operations: u32,
    pub cooldown_period: u64,
}

/// What the rate limiter remembers of one address.
#[derive(Copy, Clone, Debug, PartialEq, Eq, Structural)]
pub struct AddressState {
    pub last_operation_timestamp: u64,
    pub window_start_timestamp: u64,
    pub operation_count: u32,
}

/// The contract-wide settings.
pub struct Config {
    pub admin: Option<Address>,
    pub token: Option<Address>,
    pub chain_id: Option<String>,
    pub network_id: Option<String>,
    pub fee_config: Option<FeeConfig>,
    pub pause_flags: PauseFlags,
    pub multisig_config: Option<MultisigConfig>,
    /// Seconds a recipient has to collect an authorized claim.
    pub claim_window: u64,
    /// The allowed range of lock amounts, when one is set.
    pub amount_policy: Option<(i128, i128)>,
    pub auto_archive_config: Option<AutoArchiveConfig>,
}

/// The escrows and what is recorded about them.
pub struct Ledger {
    pub escrows: HashMap<u64, Escrow>,
    /// Bounty identifiers in creation order.
    pub escrow_index: Vec<u64>,
    /// Bounty identifiers by the handle of their depositor, in creation order.
    pub depositor_index: HashMap<u64, Vec<u64>>,
    pub metadata: HashMap<u64, EscrowMetadata>,
    /// When an escrow reached a terminal state.
    pub completed_at: HashMap<u64, u64>,
    pub archived: HashMap<u64, bool>,
    pub escrow_locks: HashMap<u64, EscrowLockState>,
}

/// Approvals and pending claims.
pub struct Approvals {
    pub refund_approvals: HashMap<u64, RefundApproval>,
    pub release_approvals: HashMap<u64, ReleaseApproval>,
    pub pending_claims: HashMap<u64, ClaimRecord>,
}

/// Claim tickets.
pub struct TicketBook {
    pub tickets: HashMap<u64, ClaimTicket>,
    pub ticket_index: Vec<u64>,
    /// Ticket identifiers by the handle of their beneficiary.
    pub beneficiary_tickets: HashMap<u64, Vec<u64>>,
    /// The last ticket identifier handed out.
    pub ticket_counter: u64,
}

/// Capabilities.
pub struct CapabilityBook {
    pub capabilities: HashMap<u64, Capability>,
    /// The last capability identifier handed out.
    pub capability_nonce: u64,
}

/// Rate limiting.
pub struct AntiAbuse {
    pub config: Option<AntiAbuseConfig>,
    pub admin: Option<Address>,
    /// Handles of whitelisted addresses.
    pub whitelist: HashSet<u64>,
    /// Per-address state, by handle.
    pub states: HashMap<u64, AddressState>,
}

/// The calls of one function recorded for performance monitoring.
#[derive(Copy, Clone, Debug, PartialEq, Eq, Structural)]
pub struct PerformanceCounter {
    pub call_count: u64,
    /// The sum of the recorded durations.
    pub total_time: u64,
}

/// Operation counters.
pub struct Metrics {
    pub operation_count: u64,
    pub user_count: u64,
    pub error_count: u64,
    /// Performance counters, by the code of the function's symbol.
    pub performance: HashMap<u64, PerformanceCounter>,
}

/// The whole contract state.
pub struct BountyEscrowContract {
    pub config: Config,
    pub ledger: Ledger,
    pub approvals: Approvals,
    pub tickets: TicketBook,
    pub capabilities: CapabilityBook,
    pub anti_abuse: AntiAbuse,
    pub metrics: Metrics,
}

/// The pause switches of a fresh contract.
pub fn default_pause_flags() -> (f: PauseFlags)
    ensures
        !f.lock_paused,
        !f.release_paused,
        !f.refund_paused,
        f.pause_reason is None,
        f.paused_at == 0,
{
    PauseFlags {
        lock_paused: false,
        release_paused: false,
        refund_paused: false,
        pause_reason: None,
        paused_at: 0,
    }
}

/// The rate-limit settings in force when none were configured.
pub open spec fn default_anti_abuse_config() -> AntiAbuseConfig {
    AntiAbuseConfig { window_size: 3600, max_operations: 100, cooldown_period: 60 }
}

/// The auto-archive policy in force when none was configured.
pub open spec fn default_auto_archive_config() -> AutoArchiveConfig {
    AutoArchiveConfig { enabled: false, cooldown_seconds: 86400 }
}

impl BountyEscrowContract {
    /// A contract with nothing stored.
    pub fn new() -> (c: BountyEscrowContract)
        ensures
            c.wf(),
            c.config.admin is None,
            c.config.token is None,
            c.config.chain_id is None,
            c.config.network_id is None,
            c.config.fee_config is None,
            !c.config.pause_flags.lock_paused,
            !c.config.pause_flags.release_paused,
            !c.config.pause_flags.refund_paused,
            c.config.pause_flags.pause_reason is None,
            c.config.pause_flags.paused_at == 0,
            c.config.multisig_config is None,
            c.config.claim_window == 0,
            c.config.amount_policy is None,
            c.config.auto_archive_config is None,
            c.ledger.escrows@ == Map::<u64, Escrow>::empty(),
            c.ledger.escrow_index@.len() == 0,
            c.ledger.depositor_index@ == Map::<u64, Vec<u64>>::empty(),
            c.ledger.metadata@ == Map::<u64, EscrowMetadata>::empty(),
            c.ledger.completed_at@ == Map::<u64, u64>::empty(),
            c.ledger.archived@ == Map::<u64, bool>::empty(),
            c.ledger.escrow_locks@ == Map::<u64, EscrowLockState>::empty(),
            c.approvals.refund_approvals@ == Map::<u64, RefundApproval>::empty(),
            c.approvals.release_approvals@ == Map::<u64, ReleaseApproval>::empty(),
            c.approvals.pending_claims@ == Map::<u64, ClaimRecord>::empty(),
            c.tickets.tickets@ == Map::<u64, ClaimTicket>::empty(),
            c.tickets.ticket_index@.len() == 0,
            c.tickets.beneficiary_tickets@ == Map::<u64, Vec<u64>>::empty(),
            c.tickets.ticket_counter == 0,
            c.capabilities.capabilities@ == Map::<u64, Capability>::empty(),
            c.capabilities.capability_nonce == 0,
            c.anti_abuse.config is None,
            c.anti_abuse.admin is None,
            c.anti_abuse.whitelist@ == Set::<u64>::empty(),
            c.anti_abuse.states@ == Map::<u64, AddressState>::empty(),
            c.metrics.operation_count == 0,
            c.metrics.user_count == 0,
            c.metrics.error_count == 0,
            c.metrics.performance@ == Map::<u64, PerformanceCounter>::empty(),
    {
        BountyEscrowContract {
            config: Config {
                admin: None,
                token: None,
                chain_id: None,
                network_id: None,
                fee_config: None,
                pause_flags: default_pause_flags(),
                multisig_config: None,
                claim_window: 0,
                amount_policy: None,
                auto_archive_config: None,
            },
            ledger: Ledger {
                escrows: HashMap::new(),
                escrow_index: Vec::new(),
                depositor_index: HashMap::new(),
                metadata: HashMap::new(),
                completed_at: HashMap::new(),
                archived: HashMap::new(),
                escrow_locks: HashMap::new(),
            },
            approvals: Approvals {
                refund_approvals: HashMap::new(),
                release_approvals: HashMap::new(),
                pending_claims: HashMap::new(),
            },
            tickets: TicketBook {
                tickets: HashMap::new(),
                ticket_index: Vec::new(),
                beneficiary_tickets: HashMap::new(),
                ticket_counter: 0,
            },
            capabilities: CapabilityBook { capabilities: HashMap::new(), capability_nonce: 0 },
            anti_abuse: AntiAbuse {
                config: None,
                admin: None,
                whitelist: HashSet::new(),
                states: HashMap::new(),
            },
            metrics: Metrics { operation_count: 0, user_count: 0, error_count: 0, performance: HashMap::new() },
        }
    }

    /// Well-formedness: every escrow is sane (it holds between nothing and
    /// what was locked into it, and nothing once released or while it is a
    /// template), every pending
    /// claim belongs to an escrow and claims no negative amount, every ticket
    /// is for a positive amount, every capability has between nothing and its
    /// limit left to use, and escrows exist only once an admin is set.
    pub open spec fn wf(&self) -> bool {
        &&& forall|id: u64| #[trigger] self.ledger.escrows@.contains_key(id) ==> self.config.admin is Some
        &&& escrows_sane(self.ledger.escrows@)
        &&& forall|id: u64| #[trigger] self.approvals.pending_claims@.contains_key(id)
            ==> self.ledger.escrows@.contains_key(id) && self.approvals.pending_claims@[id].amount >= 0
        &&& forall|id: u64| #[trigger] self.tickets.tickets@.contains_key(id) ==> self.tickets.tickets@[id].amount > 0
        &&& forall|id: u64| #[trigger] self.capabilities.capabilities@.contains_key(id)
            ==> 0 <= self.capabilities.capabilities@[id].remaining_amount
                <= self.capabilities.capabilities@[id].amount_limit
    }

    /// Whether an admin was stored.
    pub open spec fn initialized(&self) -> bool {
        self.config.admin is Some
    }

    /// Whether the given operation is paused.
    pub open spec fn paused(&self, op: PauseOperation) -> bool {
        match op {
            PauseOperation::Lock => self.config.pause_flags.lock_paused,
            PauseOperation::Release => self.config.pause_flags.release_paused,
            PauseOperation::Refund => self.config.pause_flags.refund_paused,
        }
    }

    /// Whether an owner lock on the escrow is in force at `now`.
    pub open spec fn owner_locked(&self, bounty_id: u64, now: u64) -> bool {
        self.ledger.escrow_locks@.contains_key(bounty_id) && {
            let st = self.ledger.escrow_locks@[bounty_id];
            st.locked && match st.locked_until {
                Some(until) => now < until,
                None => true,
            }
        }
    }

    /// Whether a pending claim that was not collected exists for the escrow.
    pub open spec fn claim_open(&self, bounty_id: u64) -> bool {
        self.approvals.pending_claims@.contains_key(bounty_id)
            && !self.approvals.pending_claims@[bounty_id].claimed
    }

    /// Whether an escrow is stored for the bounty.
    pub open spec fn has_escrow(&self, bounty_id: u64) -> bool {
        self.ledger.escrows@.contains_key(bounty_id)
    }

    /// The escrow stored for the bounty.
    pub open spec fn escrow(&self, bounty_id: u64) -> Escrow {
        self.ledger.escrows@[bounty_id]
    }

    /// The rate-limit settings in force.
    pub open spec fn abuse_config(&self) -> AntiAbuseConfig {
        match self.anti_abuse.config {
            Some(c) => c,
            None => default_anti_abuse_config(),
        }
    }

    /// Whether the given operation is paused.
    pub fn check_paused(&self, op: PauseOperation) -> (b: bool)
        ensures
            b == self.paused(op),
    {
        match op {
            PauseOperation::Lock => self.config.pause_flags.lock_paused,
            PauseOperation::Release => self.config.pause_flags.release_paused,
            PauseOperation::Refund => self.config.pause_flags.refund_paused,
        }
    }

    /// Whether an owner lock on the escrow is in force at `now`.
    pub fn is_escrow_locked(&self, bounty_id: u64, now: u64) -> (b: bool)
        ensures
            b == self.owner_locked(bounty_id, now),
    {
        match self.ledger.escrow_locks.get(&bounty_id) {
            Some(st) => {
                if !st.locked {
                    return false;
                }
                match st.locked_until {
                    Some(until) => now < until,
                    None => true,
                }
            },
            None => false,
        }
    }

    /// Whether a pending claim that was not collected exists for the escrow.
    pub fn has_open_claim(&self, bounty_id: u64) -> (b: bool)
        ensures
            b == self.claim_open(bounty_id),
    {
        match self.approvals.pending_claims.get(&bounty_id) {
            Some(c) => !c.claimed,
            None => false,
        }
    }
}

} // verus!

verus! {

/// The identifiers recorded under `key` in an index map, empty when none.
pub open spec fn index_seq(m: Map<u64, Vec<u64>>, key: u64) -> Seq<u64> {
    if m.contains_key(key) { m[key]@ } else { Seq::empty() }
}

/// Appends `value` to the identifiers recorded under `key`.
pub fn push_index(m: &mut HashMap<u64, Vec<u64>>, key: u64, value: u64)
    ensures
        final(m)@.contains_key(key),
        final(m)@[key]@ == index_seq(old(m)@, key).push(value),
        final(m)@.remove(key) == old(m)@.remove(key),
{
    let mut v = match m.remove(&key) {
        Some(v) => v,
        None => Vec::new(),
    };
    v.push(value);
    m.insert(key, v);
    proof {
        assert(final(m)@.remove(key) =~= old(m)@.remove(key));
    }
}

/// The escrow index of `s1` extends that of `s0`: it is at least as long,
/// and every bounty indexed in `s0` keeps its place.
pub open spec fn index_extended(s0: BountyEscrowContract, s1: BountyEscrowContract) -> bool {
    &&& s0.ledger.escrow_index@.len() <= s1.ledger.escrow_index@.len()
    &&& forall|k: int| 0 <= k < s0.ledger.escrow_index@.len()
        ==> #[trigger] s1.ledger.escrow_index@[k] == s0.ledger.escrow_index@[k]
}

/// `new` holds the escrow map `old` with the entry under `id` replaced by (or
/// set to) an escrow whose value is `v`.
pub open spec fn escrow_set(old: Map<u64, Escrow>, new: Map<u64, Escrow>, id: u64, v: EscrowView) -> bool {
    &&& new.contains_key(id)
    &&& new[id]@ == v
    &&& new.remove(id) == old.remove(id)
}

/// A stored escrow is sane, and a template (not yet filled) holds nothing.
pub open spec fn stored_escrow_ok(e: EscrowView) -> bool {
    &&& escrow_sane(e)
    &&& e.status == EscrowStatus::Template ==> e.remaining_amount == 0
}

/// Every escrow of `m` is sane, and every template of `m` holds nothing.
pub open spec fn escrows_sane(m: Map<u64, Escrow>) -> bool {
    forall|id: u64| #[trigger] m.contains_key(id) ==> stored_escrow_ok(m[id]@)
}

/// Setting one escrow to a sane value keeps all escrows sane and adds no
/// other key.
proof fn lemma_escrow_set_sane(m0: Map<u64, Escrow>, m1: Map<u64, Escrow>, id: u64, v: EscrowView)
    requires
        escrows_sane(m0),
        escrow_set(m0, m1, id, v),
        stored_escrow_ok(v),
    ensures
        escrows_sane(m1),
        forall|k: u64| #[trigger] m1.contains_key(k) ==> k == id || m0.contains_key(k),
{
    assert forall|k: u64| #[trigger] m1.contains_key(k) implies stored_escrow_ok(m1[k]@) && (k == id || m0.contains_key(k)) by {
        if k != id {
            assert(m1.remove(id).contains_key(k));
            assert(m1.remove(id)[k] == m1[k]);
            assert(m0.remove(id)[k] == m0[k]);
        }
    }
}

/// Setting one escrow to a sane value keeps every escrow sane, adds no key
/// but `id`, and changes the total that the escrows hold by exactly the
/// change in what that escrow holds.
pub proof fn lemma_escrow_set(m0: Map<u64, Escrow>, m1: Map<u64, Escrow>, id: u64, v: EscrowView)
    requires
        m0.dom().finite(),
        escrows_sane(m0),
        escrow_set(m0, m1, id, v),
        stored_escrow_ok(v),
    ensures
        escrows_sane(m1),
        forall|k: u64| #[trigger] m1.contains_key(k) ==> k == id || m0.contains_key(k),
        m1.dom().finite(),
        total_remaining(m1) == total_remaining(m0) + v.remaining_amount - held(m0, id),
{
    lemma_escrow_set_sane(m0, m1, id, v);
    lemma_total_escrow_set(m0, m1, id, v);
}

/// What the escrow under `k` still holds, 0 when there is none.
pub open spec fn held(m: Map<u64, Escrow>, k: u64) -> int {
    if m.contains_key(k) { m[k].remaining_amount as int } else { 0 }
}

/// The sum of what the escrows under `keys` still hold.
pub open spec fn held_over(m: Map<u64, Escrow>, keys: Set<u64>) -> int
    decreases keys.len(),
    when keys.finite()
{
    if keys.len() == 0 {
        0
    } else {
        let k = keys.choose();
        held(m, k) + held_over(m, keys.remove(k))
    }
}

/// The sum of what all escrows still hold.
pub open spec fn total_remaining(m: Map<u64, Escrow>) -> int {
    held_over(m, m.dom())
}

/// Any key of `keys` can be taken out of the sum first.
pub proof fn lemma_held_over_remove(m: Map<u64, Escrow>, keys: Set<u64>, k: u64)
    requires
        keys.finite(),
        keys.contains(k),
    ensures
        held_over(m, keys) == held(m, k) + held_over(m, keys.remove(k)),
    decreases keys.len(),
{
    assert(keys.len() != 0);
    let c = keys.choose();
    if c != k {
        lemma_held_over_remove(m, keys.remove(c), k);
        lemma_held_over_remove(m, keys.remove(k), c);
        assert(keys.remove(c).remove(k) =~= keys.remove(k).remove(c));
    }
}

/// The sum depends only on what the escrows under `keys` hold.
pub proof fn lemma_held_over_agree(m0: Map<u64, Escrow>, m1: Map<u64, Escrow>, keys: Set<u64>)
    requires
        keys.finite(),
        forall|k: u64| keys.contains(k) ==> held(m0, k) == held(m1, k),
    ensures
        held_over(m0, keys) == held_over(m1, keys),
    decreases keys.len(),
{
    if keys.len() != 0 {
        let c = keys.choose();
        lemma_held_over_agree(m0, m1, keys.remove(c));
    }
}

/// Setting one escrow changes the total by what that escrow's holding changes.
pub proof fn lemma_total_escrow_set(m0: Map<u64, Escrow>, m1: Map<u64, Escrow>, id: u64, v: EscrowView)
    requires
        m0.dom().finite(),
        escrow_set(m0, m1, id, v),
    ensures
        m1.dom().finite(),
        total_remaining(m1) == total_remaining(m0) + v.remaining_amount - held(m0, id),
{
    let d0 = m0.dom();
    let d1 = m1.dom();
    assert(d1 =~= d0.insert(id)) by {
        assert forall|k: u64| d1.contains(k) <==> d0.insert(id).contains(k) by {
            if k != id {
                assert(m1.remove(id).contains_key(k) == m1.contains_key(k));
                assert(m0.remove(id).contains_key(k) == m0.contains_key(k));
            }
        }
    }
    lemma_held_over_remove(m1, d1, id);
    assert(d1.remove(id) =~= d0.remove(id));
    assert forall|k: u64| d0.remove(id).contains(k) implies held(m1, k) == held(m0, k) by {
        assert(m1.remove(id)[k] == m1[k]);
        assert(m0.remove(id)[k] == m0[k]);
    }
    lemma_held_over_agree(m1, m0, d0.remove(id));
    if d0.contains(id) {
        lemma_held_over_remove(m0, d0, id);
    } else {
        assert(d0.remove(id) =~= d0);
    }
}

/// The total over sane escrows is not negative.
pub proof fn lemma_held_over_nonneg(m: Map<u64, Escrow>, keys: Set<u64>)
    requires
        keys.finite(),
        escrows_sane(m),
    ensures
        held_over(m, keys) >= 0,
    decreases keys.len(),
{
    if keys.len() != 0 {
        let c = keys.choose();
        lemma_held_over_nonneg(m, keys.remove(c));
    }
}

/// The total is 0 when no escrow holds anything.
pub proof fn lemma_held_over_zero(m: Map<u64, Escrow>, keys: Set<u64>)
    requires
        keys.finite(),
        forall|k: u64| keys.contains(k) ==> held(m, k) == 0,
    ensures
        held_over(m, keys) == 0,
    decreases keys.len(),
{
    if keys.len() != 0 {
        let c = keys.choose();
        lemma_held_over_zero(m, keys.remove(c));
    }
}

/// The value of a freshly locked escrow.
pub open spec fn locked_view(depositor: Address, amount: i128, deadline: u64) -> EscrowView {
    EscrowView {
        depositor,
        amount,
        remaining_amount: amount,
        status: EscrowStatus::Locked,
        deadline,
        refund_history: Seq::empty(),
    }
}

/// The value of `e` with the remaining amount and status replaced.
pub open spec fn with_progress(e: EscrowView, remaining: i128, status: EscrowStatus) -> EscrowView {
    EscrowView { remaining_amount: remaining, status, ..e }
}

} // verus!

verus! {

impl BountyEscrowContract {
    /// Everything except the escrows, their completion times, the refund
    /// approvals and the operation count is the same in both states.
    pub open spec fn same_outside_settlement(&self, other: &Self) -> bool {
        &&& self.config == other.config
        &&& self.ledger.escrow_index == other.ledger.escrow_index
        &&& self.ledger.depositor_index == other.ledger.depositor_index
        &&& self.ledger.metadata == other.ledger.metadata
        &&& self.ledger.archived == other.ledger.archived
        &&& self.ledger.escrow_locks == other.ledger.escrow_locks
        &&& self.approvals.release_approvals == other.approvals.release_approvals
        &&& self.approvals.pending_claims == other.approvals.pending_claims
        &&& self.tickets == other.tickets
        &&& self.capabilities == other.capabilities
        &&& self.anti_abuse == other.anti_abuse
        &&& self.metrics.user_count == other.metrics.user_count
        &&& self.metrics.error_count == other.metrics.error_count
        &&& self.metrics.performance == other.metrics.performance
    }
}

} // verus!
