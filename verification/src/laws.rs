//! Properties that span several operations of the escrow: what a lock sets
//! up for the release or refund that follows it, which states are final,
//! how the pause switches, tickets, capabilities and dry runs relate to the
//! operations they govern, and the arithmetic of fees and versions.
//!
//! Each law is stated over the spec functions that the operations' own
//! contracts use, so it applies to every state that those contracts
//! describe.

use vstd::prelude::*;
use crate::admin::fee_of;
use crate::anti_abuse::rate_limit_verdict;
use crate::grainlify::encoded_version;
use crate::effects::net_flow;
use crate::state::{
    AddressState, AntiAbuseConfig, BountyEscrowContract, escrow_set, index_extended, lemma_held_over_nonneg,
    locked_view,
    total_remaining, with_progress,
};
use crate::simulate::sim_failure_at;
use crate::types::{
    Address, CapabilityAction, ClaimTicket, Error, EscrowStatus, PauseOperation, error_code, escrow_sane,
};

verus! {

broadcast use vstd::std_specs::hash::group_hash_axioms;

/// The escrow of `bounty_id` in `s` holds exactly the value `v`.
pub open spec fn escrow_is(s: BountyEscrowContract, bounty_id: u64, v: crate::types::EscrowView) -> bool {
    s.has_escrow(bounty_id) && s.escrow(bounty_id)@ == v
}

/// What a lock sets up: after a successful lock of `amount` by `depositor`,
/// a release pays out exactly `amount`, and a refund without an admin
/// approval returns exactly `amount` to `depositor`.
pub proof fn lock_then_settle_moves_the_deposit(
    s: BountyEscrowContract,
    bounty_id: u64,
    depositor: Address,
    amount: i128,
    deadline: u64,
)
    requires
        escrow_is(s, bounty_id, locked_view(depositor, amount, deadline)),
        !s.approvals.refund_approvals@.contains_key(bounty_id),
    ensures
        s.escrow(bounty_id).amount == amount,
        s.escrow(bounty_id).status == EscrowStatus::Locked,
        s.refund_plan(bounty_id) == (amount, depositor, true),
        s.refunded_view(bounty_id, deadline).remaining_amount == 0,
        s.refunded_view(bounty_id, deadline).status == EscrowStatus::Refunded,
{
}

/// A released or refunded escrow is final: no release, partial release,
/// refund, claim or new lock of that bounty succeeds afterwards.
pub proof fn settled_escrow_is_final(
    s: BountyEscrowContract,
    bounty_id: u64,
    now: u64,
    depositor: Address,
    amount: i128,
    payout: i128,
)
    requires
        s.has_escrow(bounty_id),
        s.escrow(bounty_id).status == EscrowStatus::Released || s.escrow(bounty_id).status == EscrowStatus::Refunded,
    ensures
        s.release_error(bounty_id, now) is Some,
        s.partial_release_error(bounty_id, payout, now) is Some,
        s.refund_error(bounty_id, now) is Some,
        s.lock_error(depositor, bounty_id, amount) is Some,
        !s.simulate_release_spec(bounty_id).success,
        !s.simulate_refund_spec(now, bounty_id).success,
{
}

/// After a release (the escrow replaced by its value with nothing remaining
/// and status `Released`, as `release_funds` leaves it), a second release of
/// the same bounty is refused, and so is a refund.
pub proof fn release_happens_once(
    s0: BountyEscrowContract,
    s1: BountyEscrowContract,
    bounty_id: u64,
    now: u64,
    later: u64,
)
    requires
        s0.release_error(bounty_id, now) is None,
        escrow_set(s0.ledger.escrows@, s1.ledger.escrows@, bounty_id,
            with_progress(s0.escrow(bounty_id)@, 0, EscrowStatus::Released)),
    ensures
        s1.release_error(bounty_id, later) is Some,
        s1.refund_error(bounty_id, later) is Some,
{
}

/// A partial release of `payout` lowers what remains by exactly `payout`
/// and keeps what was locked; nothing remaining is the same as released.
/// A refund that follows (without an admin approval) returns only the
/// remainder to the depositor.
pub proof fn partial_release_conserves_funds(
    s0: BountyEscrowContract,
    s1: BountyEscrowContract,
    bounty_id: u64,
    payout: i128,
    now: u64,
)
    requires
        s0.wf(),
        s0.partial_release_error(bounty_id, payout, now) is None,
        ({
            let e = s0.escrow(bounty_id);
            let left = e.remaining_amount - payout;
            escrow_set(s0.ledger.escrows@, s1.ledger.escrows@, bounty_id,
                with_progress(e@, left as i128, if left == 0 { EscrowStatus::Released } else { EscrowStatus::Locked }))
        }),
        !s1.approvals.refund_approvals@.contains_key(bounty_id),
    ensures
        s1.escrow(bounty_id).remaining_amount + payout == s0.escrow(bounty_id).remaining_amount,
        s1.escrow(bounty_id).amount == s0.escrow(bounty_id).amount,
        0 <= s1.escrow(bounty_id).remaining_amount < s0.escrow(bounty_id).remaining_amount,
        s1.escrow(bounty_id).status == EscrowStatus::Released <==> s1.escrow(bounty_id).remaining_amount == 0,
        s1.escrow(bounty_id).remaining_amount > 0 ==> s1.refund_plan(bounty_id)
            == ((s0.escrow(bounty_id).remaining_amount - payout) as i128, s0.escrow(bounty_id).depositor, true),
{
}

/// A partial release of everything that remains leaves the escrow exactly
/// as a release leaves it (nothing remaining, `Released`, its completion
/// time recorded) and pays the same amount to the contributor.
pub proof fn partial_release_of_all_is_a_release(s: BountyEscrowContract, bounty_id: u64, now: u64)
    requires
        s.partial_release_error(bounty_id, s.escrow(bounty_id).remaining_amount, now) is None,
    ensures
        ({
            let e = s.escrow(bounty_id);
            let left = e.remaining_amount - e.remaining_amount;
            &&& left == 0
            &&& with_progress(e@, left as i128, if left == 0 { EscrowStatus::Released } else { EscrowStatus::Locked })
                == with_progress(e@, 0, EscrowStatus::Released)
        }),
        s.release_error(bounty_id, now) is None <==> !s.paused(PauseOperation::Release) && !s.claim_open(bounty_id),
{
}

/// Every capability of a well-formed state has between nothing and its
/// limit left to use, and each use that is allowed spends a positive
/// amount, at most what is left, and one use, keeping the limit.
pub proof fn capabilities_stay_within_their_limit(
    s: BountyEscrowContract,
    holder: Address,
    capability_id: u64,
    action: CapabilityAction,
    bounty_id: u64,
    amount: i128,
    now: u64,
)
    requires
        s.wf(),
        s.capabilities.capabilities@.contains_key(capability_id),
    ensures
        ({
            let c = s.capabilities.capabilities@[capability_id];
            0 <= c.remaining_amount <= c.amount_limit
        }),
        s.consume_error(holder, capability_id, action, bounty_id, amount, now) is None ==> {
            let c = s.capabilities.capabilities@[capability_id];
            let u = s.used_capability(capability_id, amount);
            &&& 0 < amount <= c.remaining_amount
            &&& 0 <= u.remaining_amount < c.remaining_amount
            &&& u.amount_limit == c.amount_limit
            &&& u.remaining_uses + 1 == c.remaining_uses
        },
{
}

/// Whether two states agree on everything a release, a refund and a lock
/// look at, except possibly the pause switches.
pub open spec fn same_but_pause_flags(s: BountyEscrowContract, t: BountyEscrowContract) -> bool {
    &&& s.config.admin == t.config.admin
    &&& s.config.amount_policy == t.config.amount_policy
    &&& s.ledger == t.ledger
    &&& s.approvals == t.approvals
}

/// Each pause switch governs its own operation only: a release does not
/// depend on the lock and refund switches, a refund not on the lock and
/// release switches, a lock not on the release and refund switches; and
/// a raised switch refuses its operation with `FundsPaused`.
pub proof fn pause_switches_are_independent(
    s: BountyEscrowContract,
    t: BountyEscrowContract,
    bounty_id: u64,
    now: u64,
    depositor: Address,
    amount: i128,
)
    requires
        same_but_pause_flags(s, t),
    ensures
        s.paused(PauseOperation::Release) == t.paused(PauseOperation::Release)
            ==> s.release_error(bounty_id, now) == t.release_error(bounty_id, now),
        s.paused(PauseOperation::Refund) == t.paused(PauseOperation::Refund)
            ==> s.refund_error(bounty_id, now) == t.refund_error(bounty_id, now),
        s.paused(PauseOperation::Lock) == t.paused(PauseOperation::Lock)
            ==> s.lock_error(depositor, bounty_id, amount) == t.lock_error(depositor, bounty_id, amount),
        s.paused(PauseOperation::Release) ==> s.release_error(bounty_id, now) == Some(Error::FundsPaused),
        s.paused(PauseOperation::Refund) ==> s.refund_error(bounty_id, now) == Some(Error::FundsPaused),
        s.paused(PauseOperation::Lock) ==> s.lock_error(depositor, bounty_id, amount) == Some(Error::FundsPaused),
{
}

/// A claim ticket pays once: after it is redeemed (marked used, as
/// `claim_with_ticket` leaves it), redeeming it again is refused.
pub proof fn ticket_redeems_once(
    s0: BountyEscrowContract,
    s1: BountyEscrowContract,
    ticket_id: u64,
    now: u64,
    later: u64,
)
    requires
        s0.claim_ticket_error(now, ticket_id) is None,
        s1.tickets.tickets@ == s0.tickets.tickets@.insert(ticket_id, ClaimTicket { used: true, ..s0.tickets.tickets@[ticket_id] }),
    ensures
        s1.claim_ticket_error(later, ticket_id) == (if s1.paused(PauseOperation::Release) {
            Some(Error::FundsPaused)
        } else {
            Some(Error::TicketAlreadyUsed)
        }),
{
}

/// Each use of a capability spends one of its uses and the amount used;
/// once no use is left, every further use is refused.
pub proof fn capability_use_is_bounded(
    s: BountyEscrowContract,
    holder: Address,
    capability_id: u64,
    action: CapabilityAction,
    bounty_id: u64,
    amount: i128,
    now: u64,
)
    requires
        s.capabilities.capabilities@.contains_key(capability_id),
    ensures
        s.consume_error(holder, capability_id, action, bounty_id, amount, now) is None ==> {
            let c = s.capabilities.capabilities@[capability_id];
            let u = s.used_capability(capability_id, amount);
            &&& u.remaining_uses + 1 == c.remaining_uses
            &&& u.remaining_amount == c.remaining_amount - amount
            &&& u.owner == c.owner && u.holder == c.holder && u.action == c.action
            &&& u.bounty_id == c.bounty_id && u.expiry == c.expiry && u.revoked == c.revoked
        },
        s.capabilities.capabilities@[capability_id].remaining_uses == 0
            ==> s.consume_error(holder, capability_id, action, bounty_id, amount, now) is Some,
{
}

/// A dry run of a release reports what the release does, for an escrow
/// that its owner has not locked and that has no open claim: success
/// exactly when the release succeeds, the amount it pays, the status it
/// leaves, and otherwise the code of the error it gives.
pub proof fn release_dry_run_is_faithful(s: BountyEscrowContract, bounty_id: u64, now: u64)
    requires
        !s.owner_locked(bounty_id, now),
        !s.claim_open(bounty_id),
    ensures
        s.simulate_release_spec(bounty_id).success <==> s.release_error(bounty_id, now) is None,
        s.release_error(bounty_id, now) matches Some(e) ==> s.simulate_release_spec(bounty_id).error_code == error_code(e),
        s.release_error(bounty_id, now) is None ==> {
            &&& s.simulate_release_spec(bounty_id).amount == s.escrow(bounty_id).remaining_amount
            &&& s.simulate_release_spec(bounty_id).resulting_status == EscrowStatus::Released
            &&& s.simulate_release_spec(bounty_id).remaining_amount == 0
        },
{
}

/// A dry run of a lock succeeds exactly when the lock succeeds and, in
/// addition, the deadline lies after `now` and the depositor's balance
/// covers the amount; a template of the same depositor is fillable for both.
pub proof fn lock_dry_run_is_faithful(
    s: BountyEscrowContract,
    now: u64,
    depositor: Address,
    bounty_id: u64,
    amount: i128,
    deadline: u64,
    balance: i128,
)
    ensures
        s.simulate_lock_error(now, depositor, bounty_id, amount, deadline, balance) is None
            <==> (s.lock_error(depositor, bounty_id, amount) is None && deadline > now && balance >= amount),
        s.lock_error(depositor, bounty_id, amount) is Some
            ==> s.simulate_lock_error(now, depositor, bounty_id, amount, deadline, balance) is Some,
{
}

/// A dry run of a refund reports what the refund does, for an escrow that
/// its owner has not locked: success exactly when the refund succeeds, the
/// amount it returns, the status and remainder it leaves, and otherwise the
/// code of the error it gives.
pub proof fn refund_dry_run_is_faithful(s: BountyEscrowContract, bounty_id: u64, now: u64)
    requires
        !s.owner_locked(bounty_id, now),
    ensures
        s.simulate_refund_spec(now, bounty_id).success <==> s.refund_error(bounty_id, now) is None,
        s.refund_error(bounty_id, now) matches Some(e) ==> s.simulate_refund_spec(now, bounty_id).error_code == error_code(e),
        s.refund_error(bounty_id, now) is None ==> {
            &&& s.simulate_refund_spec(now, bounty_id).amount == s.refund_plan(bounty_id).0
            &&& s.simulate_refund_spec(now, bounty_id).resulting_status == s.refunded_view(bounty_id, now).status
            &&& s.simulate_refund_spec(now, bounty_id).remaining_amount == s.refunded_view(bounty_id, now).remaining_amount
        },
{
    if s.refund_error(bounty_id, now) is None {
        let e = s.escrow(bounty_id);
        assert(s.simulate_refund_spec(now, bounty_id).remaining_amount == (e.remaining_amount - s.refund_plan(bounty_id).0) as i128);
    } else if s.has_escrow(bounty_id) {
        let e = s.escrow(bounty_id);
        assert(s.simulate_refund_spec(now, bounty_id).error_code == sim_failure_at(
            s.refund_error(bounty_id, now)->0, e.status, e.remaining_amount).error_code);
    }
}

/// Cancelling an open claim (removing it, as `cancel_pending_claim` does)
/// lifts exactly the block it put on refunds: a refund that was refused
/// only because of the claim is no longer refused for it.
pub proof fn cancelling_a_claim_unblocks_refund(
    s0: BountyEscrowContract,
    s1: BountyEscrowContract,
    bounty_id: u64,
    now: u64,
)
    requires
        s0.cancel_claim_error(bounty_id) is None,
        s1.approvals.pending_claims@ == s0.approvals.pending_claims@.remove(bounty_id),
        s1.approvals.refund_approvals == s0.approvals.refund_approvals,
        s1.config == s0.config,
        s1.ledger == s0.ledger,
    ensures
        s0.claim_open(bounty_id),
        !s1.claim_open(bounty_id),
        s1.refund_error(bounty_id, now) != Some(Error::ClaimPending),
        s0.refund_error(bounty_id, now) == Some(Error::ClaimPending) ==> {
            let e = s1.escrow(bounty_id);
            s1.refund_error(bounty_id, now) == (if now < e.deadline && !s1.approvals.refund_approvals@.contains_key(bounty_id) {
                Some(Error::DeadlineNotPassed)
            } else if s1.refund_plan(bounty_id).0 <= 0 || s1.refund_plan(bounty_id).0 > e.remaining_amount {
                Some(Error::InvalidAmount)
            } else {
                None
            })
        },
{
}

/// A whitelisted address is never rate limited, and its rate-limit state is
/// not touched.
pub proof fn whitelisted_addresses_are_never_limited(s: BountyEscrowContract, address: Address, now: u64)
    requires
        s.anti_abuse.whitelist@.contains(address.id),
    ensures
        s.rate_limit_of(address, now) == Ok::<Option<AddressState>, crate::anti_abuse::AbuseRejection>(None),
        s.states_after(address, now) == s.anti_abuse.states@,
{
}

/// Within one window the rate limiter allows at most `max_operations`
/// operations of an address: an allowed operation either opens a new window
/// as its first operation or counts within the cap, and it stamps the time.
pub proof fn rate_limit_caps_each_window(cfg: AntiAbuseConfig, prior: Option<AddressState>, now: u64)
    ensures
        rate_limit_verdict(cfg, false, prior, now) matches Ok(Some(st)) ==> {
            &&& st.last_operation_timestamp == now
            &&& (st.window_start_timestamp == now && st.operation_count == 1)
                || (st.operation_count <= cfg.max_operations && prior is Some
                    && st.window_start_timestamp == prior->0.window_start_timestamp
                    && st.operation_count == prior->0.operation_count + 1)
        },
        rate_limit_verdict(cfg, false, prior, now) is Ok ==> rate_limit_verdict(cfg, false, prior, now) != Ok::<
            Option<AddressState>,
            crate::anti_abuse::AbuseRejection,
        >(None),
{
}

/// The fee on an amount is never negative, never more than the amount, and
/// grows with the amount; a zero rate takes nothing and the full rate takes
/// everything.
pub proof fn fee_is_bounded_and_monotone(a1: int, a2: int, fee_rate: int)
    requires
        0 <= a1 <= a2,
        0 <= fee_rate <= 10_000,
    ensures
        0 <= fee_of(a1, fee_rate) <= a1,
        fee_of(a1, fee_rate) <= fee_of(a2, fee_rate),
        fee_of(a1, 0) == 0,
        fee_of(a1, 10_000) == a1,
{
    assert(0 <= a1 * fee_rate <= a1 * 10_000) by (nonlinear_arith)
        requires 0 <= a1, 0 <= fee_rate <= 10_000;
    assert(a1 * fee_rate <= a2 * fee_rate) by (nonlinear_arith)
        requires a1 <= a2, 0 <= fee_rate;
    assert((a1 * fee_rate) / 10_000 <= (a2 * fee_rate) / 10_000) by (nonlinear_arith)
        requires a1 * fee_rate <= a2 * fee_rate, 0 <= a1 * fee_rate;
    assert((a1 * fee_rate) / 10_000 <= a1) by (nonlinear_arith)
        requires 0 <= a1 * fee_rate <= a1 * 10_000, 0 <= a1;
    assert(a1 * 0 == 0);
    assert((a1 * 10_000) / 10_000 == a1) by (nonlinear_arith);
}

/// Encoding a version is idempotent, keeps encoded values, and the three
/// components that the version text shows put the encoded value back
/// together.
pub proof fn version_encoding_round_trips(v: u32)
    ensures
        encoded_version(encoded_version(v)) == encoded_version(v),
        v >= 10_000 ==> encoded_version(v) == v,
        v != 0 ==> encoded_version(v) >= 10_000,
        ({
            let e = encoded_version(v);
            (e / 10_000) * 10_000 + ((e / 100) % 100) * 100 + e % 100 == e
        }),
{
    let e = encoded_version(v);
    assert(0 < v < 10_000 ==> v * 10_000 >= 10_000 && v * 10_000 <= u32::MAX) by (nonlinear_arith);
    assert((e / 10_000) * 10_000 + ((e / 100) % 100) * 100 + e % 100 == e) by (nonlinear_arith)
        requires 0 <= e;
}

/// Every escrow other than `bounty_id` holds the same value in both maps.
pub open spec fn others_unchanged(m0: Map<u64, crate::types::Escrow>, m1: Map<u64, crate::types::Escrow>, bounty_id: u64) -> bool {
    forall|id: u64| id != bounty_id ==> (#[trigger] m1.contains_key(id) <==> m0.contains_key(id))
        && (m0.contains_key(id) ==> m1[id] == m0[id])
}

/// Tokens move exactly as the escrowed amounts change: a fresh lock adds
/// its deposit to what the escrow holds, a partial release and a refund
/// take from the escrow exactly what they pay out, and a release takes
/// exactly what remained; no other escrow changes.
pub proof fn token_flows_match_escrowed_amounts(
    s0: BountyEscrowContract,
    s1: BountyEscrowContract,
    bounty_id: u64,
    v: crate::types::EscrowView,
    now: u64,
)
    requires
        escrow_set(s0.ledger.escrows@, s1.ledger.escrows@, bounty_id, v),
    ensures
        others_unchanged(s0.ledger.escrows@, s1.ledger.escrows@, bounty_id),
        // lock of a new bounty: the deposit is what the escrow now holds
        !s0.has_escrow(bounty_id) && v == locked_view(v.depositor, v.amount, v.deadline)
            ==> s1.escrow(bounty_id).remaining_amount == v.amount,
        // partial release of `payout`
        forall|payout: i128| #![trigger s0.partial_release_error(bounty_id, payout, now)]
            s0.partial_release_error(bounty_id, payout, now) is None && v == with_progress(s0.escrow(bounty_id)@,
                (s0.escrow(bounty_id).remaining_amount - payout) as i128,
                if s0.escrow(bounty_id).remaining_amount - payout == 0 { EscrowStatus::Released } else { EscrowStatus::Locked })
            ==> s0.escrow(bounty_id).remaining_amount - s1.escrow(bounty_id).remaining_amount == payout,
        // refund as planned at `now`
        s0.refund_error(bounty_id, now) is None && v == s0.refunded_view(bounty_id, now)
            ==> s0.escrow(bounty_id).remaining_amount - s1.escrow(bounty_id).remaining_amount == s0.refund_plan(bounty_id).0,
        // release of what remains
        s0.release_error(bounty_id, now) is None && v == with_progress(s0.escrow(bounty_id)@, 0, EscrowStatus::Released)
            ==> s1.escrow(bounty_id).remaining_amount == 0,
{
    assert forall|id: u64| id != bounty_id implies (#[trigger] s1.ledger.escrows@.contains_key(id) <==> s0.ledger.escrows@.contains_key(id))
        && (s0.ledger.escrows@.contains_key(id) ==> s1.ledger.escrows@[id] == s0.ledger.escrows@[id]) by {
        assert(s1.ledger.escrows@.remove(bounty_id).contains_key(id) == s1.ledger.escrows@.contains_key(id));
        assert(s0.ledger.escrows@.remove(bounty_id).contains_key(id) == s0.ledger.escrows@.contains_key(id));
        if s0.ledger.escrows@.contains_key(id) {
            assert(s1.ledger.escrows@.remove(bounty_id)[id] == s1.ledger.escrows@[id]);
            assert(s0.ledger.escrows@.remove(bounty_id)[id] == s0.ledger.escrows@[id]);
        }
    }
}

/// An escrow that exists and is not a template refuses every new lock of
/// its bounty: bounty identifiers are used once.
pub proof fn bounty_ids_are_used_once(s: BountyEscrowContract, bounty_id: u64, depositor: Address, amount: i128)
    requires
        s.has_escrow(bounty_id),
        s.escrow(bounty_id).status != EscrowStatus::Template,
        !s.paused(PauseOperation::Lock),
        s.initialized(),
    ensures
        s.lock_error(depositor, bounty_id, amount) == Some(Error::BountyExists),
{
}

/// Unlocking undoes locking: an escrow that had no owner lock, locked (as
/// `lock_escrow` leaves it) and then unlocked (as `unlock_escrow` leaves
/// it), is left with the locks it had before, and no longer blocks release
/// or refund; while it is locked with no end, a release is refused with
/// `EscrowLocked` unless releases are paused.
pub proof fn unlocking_undoes_locking(
    s0: BountyEscrowContract,
    s1: BountyEscrowContract,
    s2: BountyEscrowContract,
    bounty_id: u64,
    now: u64,
)
    requires
        !s0.ledger.escrow_locks@.contains_key(bounty_id),
        s1.ledger.escrow_locks@.contains_key(bounty_id),
        s1.ledger.escrow_locks@.remove(bounty_id) == s0.ledger.escrow_locks@.remove(bounty_id),
        s2.ledger.escrow_locks@ == s1.ledger.escrow_locks@.remove(bounty_id),
    ensures
        s2.ledger.escrow_locks@ == s0.ledger.escrow_locks@,
        !s2.owner_locked(bounty_id, now),
        s1.ledger.escrow_locks@[bounty_id].locked && s1.ledger.escrow_locks@[bounty_id].locked_until is None
            && !s1.paused(PauseOperation::Release) ==> s1.release_error(bounty_id, now) == Some(Error::EscrowLocked),
{
    assert(s0.ledger.escrow_locks@.remove(bounty_id) =~= s0.ledger.escrow_locks@);
}

/// Cancelling undoes authorizing: a claim opened on an escrow that had none
/// (as `authorize_claim` leaves it) and then cancelled (as
/// `cancel_pending_claim` leaves it) leaves the pending claims as they were.
pub proof fn cancelling_undoes_authorizing(
    s0: BountyEscrowContract,
    s1: BountyEscrowContract,
    s2: BountyEscrowContract,
    bounty_id: u64,
    claim: crate::types::ClaimRecord,
)
    requires
        !s0.approvals.pending_claims@.contains_key(bounty_id),
        s1.approvals.pending_claims@ == s0.approvals.pending_claims@.insert(bounty_id, claim),
        s2.approvals.pending_claims@ == s1.approvals.pending_claims@.remove(bounty_id),
    ensures
        s2.approvals.pending_claims@ == s0.approvals.pending_claims@,
        s1.claim_open(bounty_id) <==> !claim.claimed,
        !s2.claim_open(bounty_id),
{
    assert(s0.approvals.pending_claims@.insert(bounty_id, claim).remove(bounty_id) =~= s0.approvals.pending_claims@);
}

/// Every escrow of a well-formed state is sane: it holds between nothing
/// and what was locked into it, and nothing once released; so checking the
/// state of any stored bounty succeeds.
pub proof fn stored_escrows_are_sane(s: BountyEscrowContract, bounty_id: u64)
    requires
        s.wf(),
        s.has_escrow(bounty_id),
    ensures
        escrow_sane(s.escrow(bounty_id)@),
        0 <= s.escrow(bounty_id).remaining_amount <= s.escrow(bounty_id).amount,
        s.escrow(bounty_id).status == EscrowStatus::Released ==> s.escrow(bounty_id).remaining_amount == 0,
{
}

/// Funds are conserved. Every operation ensures that the net of its
/// deposits and payouts equals the change in what all escrows still hold;
/// so when the escrow's token balance equals that total before an
/// operation, it equals the total after it as well, and it never becomes
/// negative: no operation pays out more than the escrows hold.
pub proof fn token_balance_tracks_escrowed_funds(
    s0: BountyEscrowContract,
    s1: BountyEscrowContract,
    transfers: Seq<crate::effects::Transfer>,
    balance: int,
)
    requires
        s1.wf(),
        balance == total_remaining(s0.ledger.escrows@),
        net_flow(transfers) == total_remaining(s1.ledger.escrows@) - total_remaining(s0.ledger.escrows@),
    ensures
        balance + net_flow(transfers) == total_remaining(s1.ledger.escrows@),
        balance + net_flow(transfers) >= 0,
{
    lemma_held_over_nonneg(s1.ledger.escrows@, s1.ledger.escrows@.dom());
}

/// An operation that moves no tokens and leaves every escrow as it was
/// (pausing, approvals, owner locks, archiving, configuration) keeps what
/// the escrows hold equal to the token balance too.
pub proof fn operations_without_transfers_conserve_funds(
    s0: BountyEscrowContract,
    s1: BountyEscrowContract,
    transfers: Seq<crate::effects::Transfer>,
)
    requires
        transfers.len() == 0,
        s1.ledger.escrows@ == s0.ledger.escrows@,
    ensures
        net_flow(transfers) == total_remaining(s1.ledger.escrows@) - total_remaining(s0.ledger.escrows@),
{
}

/// The escrow index only grows. Every operation of the escrow ensures that
/// the index after it extends the index before it (a fresh lock or a clone
/// adds one bounty, a batch lock adds the batch's bounties, and every other
/// operation leaves the index as it was). So over any run of operations,
/// each state's index extends that of every earlier state: a bounty once
/// indexed keeps its place, and the escrow count never decreases.
pub proof fn escrow_index_only_grows(run: Seq<BountyEscrowContract>)
    requires
        forall|i: int| 0 <= i < run.len() - 1 ==> index_extended(#[trigger] run[i], run[i + 1]),
    ensures
        forall|i: int, j: int| 0 <= i <= j < run.len() ==> index_extended(#[trigger] run[i], #[trigger] run[j]),
        forall|i: int, j: int| 0 <= i <= j < run.len()
            ==> (#[trigger] run[i]).ledger.escrow_index@.len() <= (#[trigger] run[j]).ledger.escrow_index@.len(),
    decreases run.len(),
{
    if run.len() > 1 {
        let prefix = run.drop_last();
        assert forall|i: int| 0 <= i < prefix.len() - 1 implies index_extended(#[trigger] prefix[i], prefix[i + 1]) by {
            assert(prefix[i] == run[i] && prefix[i + 1] == run[i + 1]);
        }
        escrow_index_only_grows(prefix);
        let last = run.len() - 1;
        assert forall|i: int, j: int| 0 <= i <= j < run.len() implies index_extended(#[trigger] run[i], #[trigger] run[j]) by {
            if j < last {
                assert(prefix[i] == run[i] && prefix[j] == run[j]);
            } else if i < last {
                assert(prefix[i] == run[i] && prefix[last - 1] == run[last - 1]);
                assert(index_extended(prefix[i], prefix[last - 1]));
                assert(index_extended(run[last - 1], run[last]));
            }
        }
    }
}

} // verus!
