//! What individual operations leave behind, stated over all inputs: how the
//! aggregate statistics classify escrows, what a delegated refund leaves in
//! the escrow, what an emergency withdrawal empties, which escrows a range
//! query returns, and that expired claims and tickets are refused.

use vstd::prelude::*;
use crate::emergency::drain_listed;
use crate::queries::EscrowFilter;
use crate::state::{BountyEscrowContract, escrow_set};
use crate::tickets::page;
use crate::types::{Error, EscrowStatus, EscrowWithId, PauseOperation};

verus! {

broadcast use vstd::std_specs::hash::group_hash_axioms;

/// The aggregate statistics classify each escrow of the index by its status:
/// taking one more escrow into the totals adds its amount and one to the
/// locked totals when it is `Locked`, to the released totals when it is
/// `Released`, and to the refunded totals when it is `Refunded` or
/// `PartiallyRefunded`; every other total stays as it was. A template, or an
/// identifier without an escrow, changes nothing.
pub proof fn statistics_classify_escrows_by_status(s: BountyEscrowContract, ids: Seq<u64>, n: int)
    requires
        0 <= n < ids.len(),
    ensures
        ({
            let a = s.totals(ids, n);
            let b = s.totals(ids, n + 1);
            let id = ids[n];
            let e = s.escrow(id);
            &&& s.has_escrow(id) && e.status == EscrowStatus::Locked ==> {
                &&& b.locked == a.locked + e.amount && b.n_locked == a.n_locked + 1
                &&& b.released == a.released && b.n_released == a.n_released
                &&& b.refunded == a.refunded && b.n_refunded == a.n_refunded
            }
            &&& s.has_escrow(id) && e.status == EscrowStatus::Released ==> {
                &&& b.released == a.released + e.amount && b.n_released == a.n_released + 1
                &&& b.locked == a.locked && b.n_locked == a.n_locked
                &&& b.refunded == a.refunded && b.n_refunded == a.n_refunded
            }
            &&& s.has_escrow(id) && (e.status == EscrowStatus::Refunded || e.status == EscrowStatus::PartiallyRefunded) ==> {
                &&& b.refunded == a.refunded + e.amount && b.n_refunded == a.n_refunded + 1
                &&& b.locked == a.locked && b.n_locked == a.n_locked
                &&& b.released == a.released && b.n_released == a.n_released
            }
            &&& !s.has_escrow(id) || e.status == EscrowStatus::Template ==> b == a
        }),
{
}

/// Only released escrows count as released: when none of the first `n`
/// identifiers has a `Released` escrow, the released total and count are 0;
/// likewise the refunded total and count are 0 when none has a `Refunded`
/// or `PartiallyRefunded` escrow.
pub proof fn statistics_count_only_their_own_status(s: BountyEscrowContract, ids: Seq<u64>, n: int)
    requires
        0 <= n <= ids.len(),
    ensures
        (forall|i: int| 0 <= i < n && #[trigger] s.has_escrow(ids[i]) ==> s.escrow(ids[i]).status != EscrowStatus::Released)
            ==> s.totals(ids, n).released == 0 && s.totals(ids, n).n_released == 0,
        (forall|i: int| 0 <= i < n && #[trigger] s.has_escrow(ids[i]) ==> s.escrow(ids[i]).status != EscrowStatus::Refunded
            && s.escrow(ids[i]).status != EscrowStatus::PartiallyRefunded)
            ==> s.totals(ids, n).refunded == 0 && s.totals(ids, n).n_refunded == 0,
    decreases n,
{
    if n > 0 {
        statistics_count_only_their_own_status(s, ids, n - 1);
        statistics_classify_escrows_by_status(s, ids, n - 1);
        if forall|i: int| 0 <= i < n && #[trigger] s.has_escrow(ids[i]) ==> s.escrow(ids[i]).status != EscrowStatus::Released {
            assert forall|i: int| 0 <= i < n - 1 && #[trigger] s.has_escrow(ids[i])
                implies s.escrow(ids[i]).status != EscrowStatus::Released by {}
        }
        if forall|i: int| 0 <= i < n && #[trigger] s.has_escrow(ids[i]) ==> s.escrow(ids[i]).status != EscrowStatus::Refunded
            && s.escrow(ids[i]).status != EscrowStatus::PartiallyRefunded {
            assert forall|i: int| 0 <= i < n - 1 && #[trigger] s.has_escrow(ids[i])
                implies s.escrow(ids[i]).status != EscrowStatus::Refunded
                && s.escrow(ids[i]).status != EscrowStatus::PartiallyRefunded by {}
        }
    }
}

/// A delegated refund of `amount` (as `refund_with_capability` leaves the
/// escrow) lowers what remains by exactly `amount`, and the escrow is
/// `Refunded` exactly when nothing remains; otherwise it is
/// `PartiallyRefunded`, and the rest can still be refunded.
pub proof fn delegated_refund_leaves_the_rest_refundable(
    s0: BountyEscrowContract,
    s1: BountyEscrowContract,
    bounty_id: u64,
    amount: i128,
    now: u64,
    holder: crate::types::Address,
    capability_id: u64,
)
    requires
        s0.refund_with_capability_error(now, bounty_id, amount, holder, capability_id) is None,
        escrow_set(s0.ledger.escrows@, s1.ledger.escrows@, bounty_id, s0.delegated_refund_view(bounty_id, amount, now)),
    ensures
        s1.escrow(bounty_id).remaining_amount == s0.escrow(bounty_id).remaining_amount - amount,
        s1.escrow(bounty_id).amount == s0.escrow(bounty_id).amount,
        s1.escrow(bounty_id).depositor == s0.escrow(bounty_id).depositor,
        amount < s0.escrow(bounty_id).remaining_amount ==> s1.escrow(bounty_id).status == EscrowStatus::PartiallyRefunded,
        amount == s0.escrow(bounty_id).remaining_amount ==> s1.escrow(bounty_id).status == EscrowStatus::Refunded,
        s1.escrow(bounty_id).status == EscrowStatus::Refunded <==> s1.escrow(bounty_id).remaining_amount == 0,
        s1.escrow(bounty_id).refund_history.len() == s0.escrow(bounty_id).refund_history.len() + 1,
{
}

/// An emergency withdrawal (leaving the escrows as `emergency_withdraw`
/// does) empties every indexed escrow that was `Locked` or
/// `PartiallyRefunded` and marks it `Refunded`; afterwards no indexed escrow
/// is `Locked` or `PartiallyRefunded`. Every other escrow is left as it was.
pub proof fn emergency_withdrawal_empties_active_escrows(s0: BountyEscrowContract, s1: BountyEscrowContract)
    requires
        s1.ledger.escrows@ == drain_listed(s0.ledger.escrows@, s0.ledger.escrow_index@),
    ensures
        s1.ledger.escrows@.dom() == s0.ledger.escrows@.dom(),
        forall|k: u64| #[trigger] s0.ledger.escrows@.contains_key(k) && s0.ledger.escrow_index@.contains(k)
            && (s0.ledger.escrows@[k].status == EscrowStatus::Locked
                || s0.ledger.escrows@[k].status == EscrowStatus::PartiallyRefunded)
            ==> s1.ledger.escrows@[k].remaining_amount == 0 && s1.ledger.escrows@[k].status == EscrowStatus::Refunded
                && s1.ledger.escrows@[k].amount == s0.ledger.escrows@[k].amount,
        forall|k: u64| #[trigger] s1.ledger.escrows@.contains_key(k) && s0.ledger.escrow_index@.contains(k)
            ==> s1.ledger.escrows@[k].status != EscrowStatus::Locked
                && s1.ledger.escrows@[k].status != EscrowStatus::PartiallyRefunded,
        forall|k: u64| #[trigger] s0.ledger.escrows@.contains_key(k)
            && (!s0.ledger.escrow_index@.contains(k) || (s0.ledger.escrows@[k].status != EscrowStatus::Locked
                && s0.ledger.escrows@[k].status != EscrowStatus::PartiallyRefunded))
            ==> s1.ledger.escrows@[k] == s0.ledger.escrows@[k],
{
    assert(s1.ledger.escrows@.dom() =~= s0.ledger.escrows@.dom());
}

/// What a filtered selection holds: every selected identifier is one of the
/// first `n` of `ids` and has an escrow that satisfies the filter, and every
/// such identifier is selected.
proof fn lemma_selected_exactly(s: BountyEscrowContract, ids: Seq<u64>, n: int, f: EscrowFilter)
    requires
        0 <= n <= ids.len(),
    ensures
        forall|j: int| 0 <= j < s.selected(ids, n, f).len() ==> {
            let x = #[trigger] s.selected(ids, n, f)[j];
            &&& s.has_escrow(x)
            &&& crate::queries::keeps(f, s.escrow(x))
            &&& exists|i: int| 0 <= i < n && ids[i] == x
        },
        forall|i: int| 0 <= i < n && s.has_escrow(#[trigger] ids[i]) && crate::queries::keeps(f, s.escrow(ids[i]))
            ==> s.selected(ids, n, f).contains(ids[i]),
    decreases n,
{
    if n > 0 {
        lemma_selected_exactly(s, ids, n - 1, f);
        let prev = s.selected(ids, n - 1, f);
        let cur = s.selected(ids, n, f);
        assert forall|j: int| 0 <= j < cur.len() implies {
            let x = #[trigger] cur[j];
            &&& s.has_escrow(x)
            &&& crate::queries::keeps(f, s.escrow(x))
            &&& exists|i: int| 0 <= i < n && ids[i] == x
        } by {
            if j < prev.len() {
                assert(cur[j] == prev[j]);
                let x = prev[j];
                let i = choose|i: int| 0 <= i < n - 1 && ids[i] == x;
                assert(0 <= i < n && ids[i] == x);
            } else {
                assert(cur[j] == ids[n - 1]);
                assert(0 <= n - 1 < n && ids[n - 1] == cur[j]);
            }
        }
        assert forall|i: int| 0 <= i < n && s.has_escrow(#[trigger] ids[i]) && crate::queries::keeps(f, s.escrow(ids[i]))
            implies cur.contains(ids[i]) by {
            if i < n - 1 {
                assert(prev.contains(ids[i]));
                let j = choose|j: int| 0 <= j < prev.len() && prev[j] == ids[i];
                if cur != prev {
                    assert(cur[j] == prev[j]);
                }
            } else {
                assert(cur[cur.len() - 1] == ids[i]);
            }
        }
    }
}

/// A deadline query returns exactly the indexed escrows whose deadline lies
/// between `min_deadline` and `max_deadline`, both included: every escrow on
/// the page it returns (as `query_escrows_by_deadline` lists it) has its
/// deadline in that range, and every indexed escrow in the range is among
/// those selected before paging.
pub proof fn deadline_query_returns_exactly_the_range(
    s: BountyEscrowContract,
    min_deadline: u64,
    max_deadline: u64,
    offset: u32,
    limit: u32,
    r: Seq<EscrowWithId>,
)
    requires
        s.lists_escrows(r, page(s.select(s.ledger.escrow_index@, EscrowFilter::DeadlineRange(min_deadline, max_deadline)),
            offset as int, limit as int)),
    ensures
        forall|i: int| 0 <= i < r.len() ==> min_deadline <= (#[trigger] r[i]).escrow.deadline <= max_deadline,
        forall|i: int| 0 <= i < s.ledger.escrow_index@.len() && s.has_escrow(#[trigger] s.ledger.escrow_index@[i])
            && min_deadline <= s.escrow(s.ledger.escrow_index@[i]).deadline <= max_deadline
            ==> s.select(s.ledger.escrow_index@, EscrowFilter::DeadlineRange(min_deadline, max_deadline))
                .contains(s.ledger.escrow_index@[i]),
{
    let ids = s.ledger.escrow_index@;
    let f = EscrowFilter::DeadlineRange(min_deadline, max_deadline);
    lemma_selected_exactly(s, ids, ids.len() as int, f);
    let sel = s.select(ids, f);
    let pg = page(sel, offset as int, limit as int);
    let start = if (offset as int) < sel.len() { offset as int } else { sel.len() as int };
    assert forall|i: int| 0 <= i < r.len() implies min_deadline <= (#[trigger] r[i]).escrow.deadline <= max_deadline by {
        assert(pg[i] == sel[start + i]);
        assert(r[i].bounty_id == pg[i]);
        assert(r[i].escrow@ == s.escrow(pg[i])@);
        assert(crate::queries::keeps(f, s.escrow(sel[start + i])));
    }
}

/// The members of a query's page (as a query lists them) are escrows
/// selected by the filter; the helper behind the range and status laws.
proof fn lemma_page_members_selected(
    s: BountyEscrowContract,
    f: EscrowFilter,
    offset: u32,
    limit: u32,
    r: Seq<EscrowWithId>,
)
    requires
        s.lists_escrows(r, page(s.select(s.ledger.escrow_index@, f), offset as int, limit as int)),
    ensures
        forall|i: int| 0 <= i < r.len() ==> s.has_escrow((#[trigger] r[i]).bounty_id)
            && r[i].escrow@ == s.escrow(r[i].bounty_id)@
            && crate::queries::keeps(f, s.escrow(r[i].bounty_id)),
{
    let ids = s.ledger.escrow_index@;
    lemma_selected_exactly(s, ids, ids.len() as int, f);
    let sel = s.select(ids, f);
    let pg = page(sel, offset as int, limit as int);
    let start = if (offset as int) < sel.len() { offset as int } else { sel.len() as int };
    assert forall|i: int| 0 <= i < r.len() implies s.has_escrow((#[trigger] r[i]).bounty_id)
        && r[i].escrow@ == s.escrow(r[i].bounty_id)@
        && crate::queries::keeps(f, s.escrow(r[i].bounty_id)) by {
        assert(pg[i] == sel[start + i]);
        assert(r[i].bounty_id == pg[i]);
    }
}

/// A status query returns only escrows in that status, and selects every
/// indexed escrow in it.
pub proof fn status_query_returns_exactly_that_status(
    s: BountyEscrowContract,
    status: EscrowStatus,
    offset: u32,
    limit: u32,
    r: Seq<EscrowWithId>,
)
    requires
        s.lists_escrows(r, page(s.select(s.ledger.escrow_index@, EscrowFilter::Status(status)), offset as int, limit as int)),
    ensures
        forall|i: int| 0 <= i < r.len() ==> (#[trigger] r[i]).escrow.status == status,
        forall|i: int| 0 <= i < s.ledger.escrow_index@.len() && s.has_escrow(#[trigger] s.ledger.escrow_index@[i])
            && s.escrow(s.ledger.escrow_index@[i]).status == status
            ==> s.select(s.ledger.escrow_index@, EscrowFilter::Status(status)).contains(s.ledger.escrow_index@[i]),
{
    let ids = s.ledger.escrow_index@;
    lemma_selected_exactly(s, ids, ids.len() as int, EscrowFilter::Status(status));
    lemma_page_members_selected(s, EscrowFilter::Status(status), offset, limit, r);
}

/// An amount query returns only escrows whose locked amount lies between
/// `min_amount` and `max_amount`, both included, and selects every indexed
/// escrow in that range.
pub proof fn amount_query_returns_exactly_the_range(
    s: BountyEscrowContract,
    min_amount: i128,
    max_amount: i128,
    offset: u32,
    limit: u32,
    r: Seq<EscrowWithId>,
)
    requires
        s.lists_escrows(r, page(s.select(s.ledger.escrow_index@, EscrowFilter::AmountRange(min_amount, max_amount)),
            offset as int, limit as int)),
    ensures
        forall|i: int| 0 <= i < r.len() ==> min_amount <= (#[trigger] r[i]).escrow.amount <= max_amount,
        forall|i: int| 0 <= i < s.ledger.escrow_index@.len() && s.has_escrow(#[trigger] s.ledger.escrow_index@[i])
            && min_amount <= s.escrow(s.ledger.escrow_index@[i]).amount <= max_amount
            ==> s.select(s.ledger.escrow_index@, EscrowFilter::AmountRange(min_amount, max_amount))
                .contains(s.ledger.escrow_index@[i]),
{
    let ids = s.ledger.escrow_index@;
    lemma_selected_exactly(s, ids, ids.len() as int, EscrowFilter::AmountRange(min_amount, max_amount));
    lemma_page_members_selected(s, EscrowFilter::AmountRange(min_amount, max_amount), offset, limit, r);
}

/// A refund (as `refund` leaves the escrow) lowers what remains by exactly
/// the refunded amount and records it. Without an admin approval everything
/// remaining returns to the depositor and the escrow is `Refunded`. With an
/// approval the approved amount goes to the approved recipient; the escrow
/// is `Refunded` when the approval is for a full refund or nothing remains,
/// and `PartiallyRefunded` otherwise.
pub proof fn refund_leaves_what_was_not_refunded(
    s0: BountyEscrowContract,
    s1: BountyEscrowContract,
    bounty_id: u64,
    now: u64,
)
    requires
        s0.refund_error(bounty_id, now) is None,
        escrow_set(s0.ledger.escrows@, s1.ledger.escrows@, bounty_id, s0.refunded_view(bounty_id, now)),
    ensures
        ({
            let e0 = s0.escrow(bounty_id);
            let e1 = s1.escrow(bounty_id);
            let approved = s0.approvals.refund_approvals@.contains_key(bounty_id);
            let a = s0.approvals.refund_approvals@[bounty_id];
            &&& e1.amount == e0.amount && e1.depositor == e0.depositor
            &&& e1@.refund_history.len() == e0@.refund_history.len() + 1
            &&& !approved ==> e1.remaining_amount == 0 && e1.status == EscrowStatus::Refunded
                && e1@.refund_history.last().recipient == e0.depositor
                && e1@.refund_history.last().amount == e0.remaining_amount
            &&& approved ==> e1.remaining_amount == e0.remaining_amount - a.amount
                && e1@.refund_history.last().recipient == a.recipient
                && e1@.refund_history.last().amount == a.amount
            &&& approved && a.mode == crate::types::RefundMode::Partial && a.amount < e0.remaining_amount
                ==> e1.status == EscrowStatus::PartiallyRefunded
            &&& approved && (a.mode == crate::types::RefundMode::Full || a.amount == e0.remaining_amount)
                ==> e1.status == EscrowStatus::Refunded
        }),
{
}

/// A claim is collectable only within its window: collecting a pending
/// claim after its expiry is refused with `DeadlineNotPassed` (so nothing
/// is paid and nothing changes), whether by its recipient or through a
/// capability.
pub proof fn expired_claims_are_refused(
    s: BountyEscrowContract,
    bounty_id: u64,
    now: u64,
    holder: crate::types::Address,
    capability_id: u64,
)
    requires
        !s.paused(PauseOperation::Release),
        s.approvals.pending_claims@.contains_key(bounty_id),
        now > s.approvals.pending_claims@[bounty_id].expires_at,
    ensures
        s.claim_error(bounty_id, now) == Some(Error::DeadlineNotPassed),
        s.claim_with_capability_error(now, bounty_id, holder, capability_id) == Some(Error::DeadlineNotPassed),
{
}

/// A claim is collected once: after it is marked collected (as `claim`
/// leaves it), collecting it again within its window, by its recipient or
/// through a capability, is refused with `FundsNotLocked`.
pub proof fn claims_are_collected_once(
    s: BountyEscrowContract,
    bounty_id: u64,
    now: u64,
    holder: crate::types::Address,
    capability_id: u64,
)
    requires
        !s.paused(PauseOperation::Release),
        s.approvals.pending_claims@.contains_key(bounty_id),
        s.approvals.pending_claims@[bounty_id].claimed,
        now <= s.approvals.pending_claims@[bounty_id].expires_at,
    ensures
        s.claim_error(bounty_id, now) == Some(Error::FundsNotLocked),
        s.claim_with_capability_error(now, bounty_id, holder, capability_id) == Some(Error::FundsNotLocked),
{
}

/// A ticket is redeemable only until its expiry: redeeming an unused ticket
/// after it expired is refused with `TicketExpired`.
pub proof fn expired_tickets_are_refused(s: BountyEscrowContract, ticket_id: u64, now: u64)
    requires
        !s.paused(PauseOperation::Release),
        s.tickets.tickets@.contains_key(ticket_id),
        !s.tickets.tickets@[ticket_id].used,
        now > s.tickets.tickets@[ticket_id].expires_at,
    ensures
        s.claim_ticket_error(now, ticket_id) == Some(Error::TicketExpired),
{
}

} // verus!
