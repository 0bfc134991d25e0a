//! Locking and releasing many escrows in one all-or-nothing operation.

use vstd::prelude::*;
use crate::effects::{
    ActionSummary, BatchFundsLocked, BatchFundsReleased, Event, OperationKind, Outcome, Transfer, auth_of,
    lemma_net_flow_push, net_flow,
};
use crate::state::{
    BountyEscrowContract, escrows_sane, index_seq, lemma_escrow_set, locked_view, push_index, total_remaining,
    with_progress, index_extended};
use crate::types::{Address, Error, Escrow, EscrowStatus, LockFundsItem, PauseOperation, ReleaseFundsItem};

verus! {

broadcast use vstd::std_specs::hash::group_hash_axioms;

/// The most items a batch may hold.
pub const MAX_BATCH_SIZE: usize = 20;

/// Whether another item of `items` has the same bounty as item `i`.
pub open spec fn lock_item_duplicated(items: Seq<LockFundsItem>, i: int) -> bool {
    exists|j: int| 0 <= j < items.len() && j != i && #[trigger] items[j].bounty_id == items[i].bounty_id
}

/// Whether another item of `items` has the same bounty as item `i`.
pub open spec fn release_item_duplicated(items: Seq<ReleaseFundsItem>, i: int) -> bool {
    exists|j: int| 0 <= j < items.len() && j != i && #[trigger] items[j].bounty_id == items[i].bounty_id
}

/// The sum of the amounts of the first `n` items.
pub open spec fn lock_total(items: Seq<LockFundsItem>, n: int) -> int
    decreases n,
{
    if n <= 0 { 0 } else { lock_total(items, n - 1) + items[n - 1].amount }
}

/// The depositors of the first `n` items, each once, in order of first
/// appearance.
pub open spec fn distinct_depositors(items: Seq<LockFundsItem>, n: int) -> Seq<Address>
    decreases n,
{
    if n <= 0 {
        Seq::empty()
    } else {
        let d = distinct_depositors(items, n - 1);
        if d.contains(items[n - 1].depositor) { d } else { d.push(items[n - 1].depositor) }
    }
}

/// The bounties, among the first `n` items, of those whose depositor has
/// handle `d`, in order.
pub open spec fn bounties_of(items: Seq<LockFundsItem>, n: int, d: u64) -> Seq<u64>
    decreases n,
{
    if n <= 0 {
        Seq::empty()
    } else if items[n - 1].depositor.id == d {
        bounties_of(items, n - 1, d).push(items[n - 1].bounty_id)
    } else {
        bounties_of(items, n - 1, d)
    }
}

/// Whether one of the first `n` items of `items` is for bounty `id`.
pub open spec fn lock_prefix_has(items: Seq<LockFundsItem>, n: int, id: u64) -> bool {
    exists|i: int| 0 <= i < n && #[trigger] items[i].bounty_id == id
}

/// Whether some item of `items` is for bounty `id`.
pub open spec fn lock_batch_has(items: Seq<LockFundsItem>, id: u64) -> bool {
    lock_prefix_has(items, items.len() as int, id)
}

impl BountyEscrowContract {
    /// The error, if any, of item `i` of a batch lock.
    pub open spec fn lock_item_error(&self, items: Seq<LockFundsItem>, i: int) -> Option<Error> {
        if self.has_escrow(items[i].bounty_id) {
            Some(Error::BountyExists)
        } else if items[i].amount <= 0 {
            Some(Error::InvalidAmount)
        } else if lock_item_duplicated(items, i) {
            Some(Error::DuplicateBountyId)
        } else {
            None
        }
    }

    /// The error of the first failing item among the first `n`.
    pub open spec fn first_lock_item_error(&self, items: Seq<LockFundsItem>, n: int) -> Option<Error>
        decreases n,
    {
        if n <= 0 {
            None
        } else if self.first_lock_item_error(items, n - 1) is Some {
            self.first_lock_item_error(items, n - 1)
        } else {
            self.lock_item_error(items, n - 1)
        }
    }

    /// The error, if any, of a batch lock of `items`.
    pub open spec fn batch_lock_error(&self, items: Seq<LockFundsItem>) -> Option<Error> {
        if self.paused(PauseOperation::Lock) {
            Some(Error::FundsPaused)
        } else if items.len() == 0 || items.len() > MAX_BATCH_SIZE {
            Some(Error::InvalidBatchSize)
        } else if !self.initialized() {
            Some(Error::NotInitialized)
        } else {
            self.first_lock_item_error(items, items.len() as int)
        }
    }
}

/// Whether `a` occurs in `v`.
fn contains_address(v: &Vec<Address>, a: Address) -> (b: bool)
    ensures
        b == v@.contains(a),
{
    let mut i: usize = 0;
    while i < v.len()
        invariant
            i <= v.len(),
            forall|j: int| 0 <= j < i ==> v@[j] != a,
        decreases v.len() - i,
    {
        if v[i] == a {
            return true;
        }
        i = i + 1;
    }
    false
}

/// Whether another item of `items` has the same bounty as item `i`.
fn lock_duplicated(items: &Vec<LockFundsItem>, i: usize) -> (b: bool)
    requires
        i < items.len(),
    ensures
        b == lock_item_duplicated(items@, i as int),
{
    let mut j: usize = 0;
    while j < items.len()
        invariant
            i < items.len(),
            j <= items.len(),
            forall|k: int| 0 <= k < j && k != i ==> items@[k].bounty_id != items@[i as int].bounty_id,
        decreases items.len() - j,
    {
        if j != i && items[j].bounty_id == items[i].bounty_id {
            return true;
        }
        j = j + 1;
    }
    false
}

/// Whether another item of `items` has the same bounty as item `i`.
fn release_duplicated(items: &Vec<ReleaseFundsItem>, i: usize) -> (b: bool)
    requires
        i < items.len(),
    ensures
        b == release_item_duplicated(items@, i as int),
{
    let mut j: usize = 0;
    while j < items.len()
        invariant
            i < items.len(),
            j <= items.len(),
            forall|k: int| 0 <= k < j && k != i ==> items@[k].bounty_id != items@[i as int].bounty_id,
        decreases items.len() - j,
    {
        if j != i && items[j].bounty_id == items[i].bounty_id {
            return true;
        }
        j = j + 1;
    }
    false
}

impl BountyEscrowContract {
    /// Checks the items of a batch lock in order; the error of the first
    /// failing one.
    fn check_lock_items(&self, items: &Vec<LockFundsItem>) -> (r: Option<Error>)
        ensures
            r == self.first_lock_item_error(items@, items@.len() as int),
    {
        let mut i: usize = 0;
        while i < items.len()
            invariant
                i <= items.len(),
                self.first_lock_item_error(items@, i as int) is None,
            decreases items.len() - i,
        {
            let it = items[i];
            let dup = lock_duplicated(items, i);
            let err = if self.ledger.escrows.contains_key(&it.bounty_id) {
                Some(Error::BountyExists)
            } else if it.amount <= 0 {
                Some(Error::InvalidAmount)
            } else if dup {
                Some(Error::DuplicateBountyId)
            } else {
                None
            };
            proof {
                assert(err == self.lock_item_error(items@, i as int));
                assert(self.first_lock_item_error(items@, i + 1) == err);
            }
            if err.is_some() {
                proof {
                    lemma_first_lock_error_stable(*self, items@, i + 1, items@.len() as int);
                }
                return err;
            }
            i = i + 1;
        }
        None
    }

    /// The error, if any, of a batch lock of `items`, computed without
    /// changing anything.
    pub fn batch_lock_precheck(&self, items: &Vec<LockFundsItem>) -> (r: Option<Error>)
        ensures
            r == self.batch_lock_error(items@),
    {
        if self.check_paused(PauseOperation::Lock) {
            return Some(Error::FundsPaused);
        }
        let n = items.len();
        if n == 0 || n > MAX_BATCH_SIZE {
            return Some(Error::InvalidBatchSize);
        }
        if self.config.admin.is_none() {
            return Some(Error::NotInitialized);
        }
        self.check_lock_items(items)
    }

    /// Locks funds for every item of `items` at once: all of them or, when
    /// any item fails its checks, none. Each depositor authorizes once.
    /// Returns the number of escrows created.
    pub fn batch_lock_funds(&mut self, now: u64, items: &Vec<LockFundsItem>) -> (out: Outcome<u32>)
        requires
            old(self).wf(),
            old(self).batch_lock_error(items@) is None ==> lock_total(items@, items@.len() as int) <= i128::MAX,
        ensures
            index_extended(*old(self), *final(self)),
            final(self).wf(),
            out.result is Ok <==> old(self).batch_lock_error(items@) is None,
            out.result matches Err(e) ==> old(self).batch_lock_error(items@) == Some(e),
            out.result is Err ==> *final(self) == *old(self),
            out.result is Err ==> out.transfers@.len() == 0 && out.events@.len() == 0,
            net_flow(out.transfers@) == total_remaining(final(self).ledger.escrows@) - total_remaining(old(self).ledger.escrows@),
            out.result is Err ==> out.auths@.len() == 0,
            out.result is Ok ==> {
                let n = items@.len();
                &&& out.result == Ok::<u32, Error>(n as u32)
                &&& out.auths@ == distinct_depositors(items@, n as int)
                &&& forall|i: int| 0 <= i < n ==> {
                    &&& #[trigger] final(self).ledger.escrows@.contains_key(items@[i].bounty_id)
                    &&& final(self).ledger.escrows@[items@[i].bounty_id]@
                        == locked_view(items@[i].depositor, items@[i].amount, items@[i].deadline)
                }
                &&& forall|k: u64| !lock_batch_has(items@, k) ==> {
                    &&& (#[trigger] final(self).ledger.escrows@.contains_key(k) <==> old(self).ledger.escrows@.contains_key(k))
                    &&& old(self).ledger.escrows@.contains_key(k) ==> final(self).ledger.escrows@[k] == old(self).ledger.escrows@[k]
                }
                &&& final(self).ledger.escrow_index@ == old(self).ledger.escrow_index@
                    + items@.map_values(|it: LockFundsItem| it.bounty_id)
                &&& forall|d: u64| #[trigger] index_seq(final(self).ledger.depositor_index@, d)
                    == index_seq(old(self).ledger.depositor_index@, d) + bounties_of(items@, n as int, d)
                &&& out.transfers@ == items@.map_values(|it: LockFundsItem| Transfer::Deposit { from: it.depositor, amount: it.amount })
                &&& out.events@.len() == n + 2
                &&& forall|i: int| 0 <= i < n ==> #[trigger] out.events@[i] == (Event::FundsLocked {
                    bounty_id: items@[i].bounty_id,
                    amount: items@[i].amount,
                    depositor: items@[i].depositor,
                    deadline: items@[i].deadline,
                })
                &&& out.events@[n as int] == Event::BatchFundsLocked(BatchFundsLocked {
                    count: n as u32,
                    total_amount: lock_total(items@, n as int) as i128,
                    timestamp: now,
                })
                &&& out.events@[n as int + 1] matches Event::EventBatch { kind, actions, total_amount, timestamp }
                    && kind == OperationKind::Lock && total_amount == lock_total(items@, n as int)
                    && timestamp == now
                    && actions@ == items@.map_values(|it: LockFundsItem| ActionSummary {
                        bounty_id: it.bounty_id,
                        kind: OperationKind::Lock,
                        amount: it.amount,
                        timestamp: now,
                    })
            },
            final(self).config == old(self).config,
            final(self).ledger.metadata == old(self).ledger.metadata,
            final(self).ledger.completed_at == old(self).ledger.completed_at,
            final(self).ledger.archived == old(self).ledger.archived,
            final(self).ledger.escrow_locks == old(self).ledger.escrow_locks,
            final(self).approvals == old(self).approvals,
            final(self).tickets == old(self).tickets,
            final(self).capabilities == old(self).capabilities,
            final(self).anti_abuse == old(self).anti_abuse,
            final(self).metrics == old(self).metrics,
    {
        if let Some(e) = self.batch_lock_precheck(items) {
            return Outcome::fail_early(e);
        }
        let n = items.len();
        // Each depositor authorizes once, in order of first appearance.
        let mut auths: Vec<Address> = Vec::new();
        let mut i: usize = 0;
        while i < n
            invariant
                n == items@.len(),
                i <= n,
                auths@ == distinct_depositors(items@, i as int),
            decreases n - i,
        {
            let d = items[i].depositor;
            if !contains_address(&auths, d) {
                auths.push(d);
            }
            i = i + 1;
        }
        // Record every escrow.
        let ghost old_escrows = self.ledger.escrows@;
        let ghost old_index = self.ledger.escrow_index@;
        let ghost old_dep = self.ledger.depositor_index@;
        let mut i: usize = 0;
        while i < n
            invariant
                n == items@.len(),
                i <= n,
                old(self).first_lock_item_error(items@, n as int) is None,
                old_escrows == old(self).ledger.escrows@,
                old_index == old(self).ledger.escrow_index@,
                old_dep == old(self).ledger.depositor_index@,
                escrows_sane(old_escrows),
                escrows_sane(self.ledger.escrows@),
                old_escrows.dom().finite(),
                total_remaining(self.ledger.escrows@) == total_remaining(old_escrows) + lock_total(items@, i as int),
                forall|j: int| 0 <= j < i ==> {
                    &&& #[trigger] self.ledger.escrows@.contains_key(items@[j].bounty_id)
                    &&& self.ledger.escrows@[items@[j].bounty_id]@
                        == locked_view(items@[j].depositor, items@[j].amount, items@[j].deadline)
                },
                forall|k: u64| !lock_prefix_has(items@, i as int, k) ==> {
                    &&& (#[trigger] self.ledger.escrows@.contains_key(k) <==> old_escrows.contains_key(k))
                    &&& old_escrows.contains_key(k) ==> self.ledger.escrows@[k] == old_escrows[k]
                },
                self.ledger.escrow_index@ == old_index + items@.take(i as int).map_values(|it: LockFundsItem| it.bounty_id),
                forall|d: u64| #[trigger] index_seq(self.ledger.depositor_index@, d)
                    == index_seq(old_dep, d) + bounties_of(items@, i as int, d),
                self.config == old(self).config,
                self.ledger.metadata == old(self).ledger.metadata,
                self.ledger.completed_at == old(self).ledger.completed_at,
                self.ledger.archived == old(self).ledger.archived,
                self.ledger.escrow_locks == old(self).ledger.escrow_locks,
                self.approvals == old(self).approvals,
                self.tickets == old(self).tickets,
                self.capabilities == old(self).capabilities,
                self.anti_abuse == old(self).anti_abuse,
                self.metrics == old(self).metrics,
            decreases n - i,
        {
            let it = items[i];
            let ghost before = self.ledger.depositor_index@;
            let ghost before_escrows = self.ledger.escrows@;
            proof {
                lemma_first_lock_item_error_prefix(*old(self), items@, n as int, i as int);
            }
            let fresh = Escrow {
                depositor: it.depositor,
                amount: it.amount,
                remaining_amount: it.amount,
                status: EscrowStatus::Locked,
                deadline: it.deadline,
                refund_history: Vec::new(),
            };
            assert(fresh@ == locked_view(it.depositor, it.amount, it.deadline));
            proof {
                assert(!lock_prefix_has(items@, i as int, it.bounty_id)) by {
                    if lock_prefix_has(items@, i as int, it.bounty_id) {
                        let j = choose|j: int| 0 <= j < i && #[trigger] items@[j].bounty_id == it.bounty_id;
                        assert(lock_item_duplicated(items@, i as int));
                    }
                }
                assert(!before_escrows.contains_key(it.bounty_id));
            }
            self.ledger.escrows.insert(it.bounty_id, fresh);
            self.ledger.escrow_index.push(it.bounty_id);
            push_index(&mut self.ledger.depositor_index, it.depositor.id, it.bounty_id);
            proof {
                assert(self.ledger.escrows@.remove(it.bounty_id) =~= before_escrows.remove(it.bounty_id));
                lemma_escrow_set(before_escrows, self.ledger.escrows@, it.bounty_id,
                    locked_view(it.depositor, it.amount, it.deadline));
                assert(self.ledger.depositor_index@.contains_key(it.depositor.id));
                assert(self.ledger.depositor_index@[it.depositor.id]@ == index_seq(before, it.depositor.id).push(it.bounty_id));
                assert(items@.take(i + 1).map_values(|it: LockFundsItem| it.bounty_id)
                    == items@.take(i as int).map_values(|it: LockFundsItem| it.bounty_id).push(it.bounty_id));
                assert forall|d: u64| #[trigger] index_seq(self.ledger.depositor_index@, d)
                    == index_seq(old_dep, d) + bounties_of(items@, i + 1, d) by {
                    assert(index_seq(before, d) == index_seq(old_dep, d) + bounties_of(items@, i as int, d));
                    if d == it.depositor.id {
                        assert(index_seq(self.ledger.depositor_index@, d) == index_seq(before, d).push(it.bounty_id));
                        assert(bounties_of(items@, i + 1, d) == bounties_of(items@, i as int, d).push(it.bounty_id));
                        assert((index_seq(old_dep, d) + bounties_of(items@, i as int, d)).push(it.bounty_id)
                            =~= index_seq(old_dep, d) + bounties_of(items@, i as int, d).push(it.bounty_id));
                    } else {
                        assert(self.ledger.depositor_index@.remove(it.depositor.id).contains_key(d) == before.remove(it.depositor.id).contains_key(d));
                        if before.contains_key(d) {
                            assert(self.ledger.depositor_index@.remove(it.depositor.id)[d] == before.remove(it.depositor.id)[d]);
                        }
                        assert(index_seq(self.ledger.depositor_index@, d) == index_seq(before, d));
                        assert(bounties_of(items@, i + 1, d) == bounties_of(items@, i as int, d));
                    }
                }
                assert forall|j: int| 0 <= j < i + 1 implies {
                    &&& #[trigger] self.ledger.escrows@.contains_key(items@[j].bounty_id)
                    &&& self.ledger.escrows@[items@[j].bounty_id]@
                        == locked_view(items@[j].depositor, items@[j].amount, items@[j].deadline)
                } by {
                    if j < i {
                        assert(before_escrows.contains_key(items@[j].bounty_id));
                        assert(items@[j].bounty_id != it.bounty_id) by {
                            if items@[j].bounty_id == it.bounty_id {
                                assert(lock_item_duplicated(items@, i as int));
                            }
                        }
                    }
                }
                assert forall|k: u64| !lock_prefix_has(items@, i + 1, k) implies {
                    &&& (#[trigger] self.ledger.escrows@.contains_key(k) <==> old_escrows.contains_key(k))
                    &&& old_escrows.contains_key(k) ==> self.ledger.escrows@[k] == old_escrows[k]
                } by {
                    assert(k != it.bounty_id) by {
                        if k == it.bounty_id {
                            assert(items@[i as int].bounty_id == k);
                        }
                    }
                    assert(!lock_prefix_has(items@, i as int, k)) by {
                        if lock_prefix_has(items@, i as int, k) {
                            let j = choose|j: int| 0 <= j < i && #[trigger] items@[j].bounty_id == k;
                            assert(0 <= j < i + 1 && items@[j].bounty_id == k);
                        }
                    }
                    if old_escrows.contains_key(k) {
                        assert(before_escrows.contains_key(k));
                    }
                    if before_escrows.contains_key(k) {
                        assert(old_escrows.contains_key(k));
                    }
                }
            }
            i = i + 1;
        }
        // Transfers and events.
        proof {
            assert forall|j: int| 0 <= j < n implies #[trigger] items@[j].amount > 0 by {
                lemma_first_lock_item_error_prefix(*old(self), items@, n as int, j);
            }
        }
        let mut transfers: Vec<Transfer> = Vec::new();
        let mut events: Vec<Event> = Vec::new();
        let mut actions: Vec<ActionSummary> = Vec::new();
        let mut total: i128 = 0;
        let mut i: usize = 0;
        while i < n
            invariant
                n == items@.len(),
                i <= n,
                lock_total(items@, n as int) <= i128::MAX,
                forall|j: int| 0 <= j < n ==> #[trigger] items@[j].amount > 0,
                total == lock_total(items@, i as int),
                net_flow(transfers@) == lock_total(items@, i as int),
                transfers@ == items@.take(i as int).map_values(|it: LockFundsItem| Transfer::Deposit { from: it.depositor, amount: it.amount }),
                actions@ == items@.take(i as int).map_values(|it: LockFundsItem| ActionSummary {
                    bounty_id: it.bounty_id,
                    kind: OperationKind::Lock,
                    amount: it.amount,
                    timestamp: now,
                }),
                events@.len() == i,
                forall|j: int| 0 <= j < i ==> #[trigger] events@[j] == (Event::FundsLocked {
                    bounty_id: items@[j].bounty_id,
                    amount: items@[j].amount,
                    depositor: items@[j].depositor,
                    deadline: items@[j].deadline,
                }),
            decreases n - i,
        {
            let it = items[i];
            proof {
                lemma_lock_total_monotone(items@, (i + 1) as int, n as int);
            }
            total = total + it.amount;
            proof {
                lemma_net_flow_push(transfers@, Transfer::Deposit { from: it.depositor, amount: it.amount });
            }
            transfers.push(Transfer::Deposit { from: it.depositor, amount: it.amount });
            actions.push(ActionSummary { bounty_id: it.bounty_id, kind: OperationKind::Lock, amount: it.amount, timestamp: now });
            events.push(Event::FundsLocked { bounty_id: it.bounty_id, amount: it.amount, depositor: it.depositor, deadline: it.deadline });
            proof {
                assert(items@.take(i + 1) == items@.take(i as int).push(it));
            }
            i = i + 1;
        }
        proof {
            assert(items@.take(n as int) == items@);
        }
        let count = n as u32;
        events.push(Event::BatchFundsLocked(BatchFundsLocked { count, total_amount: total, timestamp: now }));
        events.push(Event::EventBatch { kind: OperationKind::Lock, actions, total_amount: total, timestamp: now });
        proof {
            assert forall|k: u64| !lock_batch_has(items@, k) implies {
                &&& (#[trigger] final(self).ledger.escrows@.contains_key(k) <==> old(self).ledger.escrows@.contains_key(k))
                &&& old(self).ledger.escrows@.contains_key(k) ==> final(self).ledger.escrows@[k] == old(self).ledger.escrows@[k]
            } by {
                if old(self).ledger.escrows@.contains_key(k) {
                    assert(final(self).ledger.escrows@.contains_key(k));
                }
            }
        }
        Outcome { result: Ok(count), auths, transfers, events }
    }

}

/// Once some item among the first `m` fails, the first failure stays the
/// same for every longer prefix.
proof fn lemma_first_lock_error_stable(s: BountyEscrowContract, items: Seq<LockFundsItem>, m: int, n: int)
    requires
        0 <= m <= n,
        s.first_lock_item_error(items, m) is Some,
    ensures
        s.first_lock_item_error(items, n) == s.first_lock_item_error(items, m),
    decreases n - m,
{
    if m < n {
        lemma_first_lock_error_stable(s, items, m, n - 1);
    }
}

/// When no item among the first `n` fails, no item before `n` fails.
proof fn lemma_first_lock_item_error_prefix(s: BountyEscrowContract, items: Seq<LockFundsItem>, n: int, i: int)
    requires
        0 <= i < n,
        s.first_lock_item_error(items, n) is None,
    ensures
        s.first_lock_item_error(items, i) is None,
        s.lock_item_error(items, i) is None,
    decreases n - i,
{
    assert(s.first_lock_item_error(items, n - 1) is None);
    if i + 1 < n {
        lemma_first_lock_item_error_prefix(s, items, n - 1, i);
    }
}

/// The running total of positive amounts is non-negative.
proof fn lemma_lock_total_nonneg(items: Seq<LockFundsItem>, n: int)
    requires
        n <= items.len(),
        forall|j: int| 0 <= j < n ==> #[trigger] items[j].amount > 0,
    ensures
        0 <= lock_total(items, n),
    decreases n,
{
    if n > 0 {
        lemma_lock_total_nonneg(items, n - 1);
    }
}

/// Running totals of positive amounts grow.
proof fn lemma_lock_total_monotone(items: Seq<LockFundsItem>, i: int, n: int)
    requires
        0 <= i <= n <= items.len(),
        forall|j: int| 0 <= j < n ==> #[trigger] items[j].amount > 0,
    ensures
        0 <= lock_total(items, i) <= lock_total(items, n),
    decreases n - i,
{
    if i < n {
        lemma_lock_total_monotone(items, i, n - 1);
    } else {
        lemma_lock_total_nonneg(items, n);
    }
}

/// The escrows of the first `n` items are released, relative to `s0`, and
/// their completion time is `now`.
pub open spec fn released_upto(
    escrows: Map<u64, Escrow>,
    done: Map<u64, u64>,
    s0: BountyEscrowContract,
    items: Seq<ReleaseFundsItem>,
    n: int,
    now: u64,
) -> bool {
    forall|j: int| 0 <= j < n ==> {
        &&& #[trigger] escrows.contains_key(items[j].bounty_id)
        &&& escrows[items[j].bounty_id]@ == with_progress(s0.escrow(items[j].bounty_id)@, 0, EscrowStatus::Released)
        &&& done.contains_key(items[j].bounty_id)
        &&& done[items[j].bounty_id] == now
    }
}

/// Whether one of the first `n` items of `items` is for bounty `id`.
pub open spec fn release_prefix_has(items: Seq<ReleaseFundsItem>, n: int, id: u64) -> bool {
    exists|i: int| 0 <= i < n && #[trigger] items[i].bounty_id == id
}

impl BountyEscrowContract {
    /// The sum of what remains in the escrows of the first `n` items.
    pub open spec fn release_total(&self, items: Seq<ReleaseFundsItem>, n: int) -> int
        decreases n,
    {
        if n <= 0 { 0 } else { self.release_total(items, n - 1) + self.escrow(items[n - 1].bounty_id).remaining_amount }
    }

    /// The error, if any, of item `i` of a batch release at `now`.
    pub open spec fn release_item_error(&self, items: Seq<ReleaseFundsItem>, i: int, now: u64) -> Option<Error> {
        if self.owner_locked(items[i].bounty_id, now) {
            Some(Error::EscrowLocked)
        } else if !self.has_escrow(items[i].bounty_id) {
            Some(Error::BountyNotFound)
        } else if self.escrow(items[i].bounty_id).status != EscrowStatus::Locked {
            Some(Error::FundsNotLocked)
        } else if release_item_duplicated(items, i) {
            Some(Error::DuplicateBountyId)
        } else if self.release_total(items, i + 1) > i128::MAX {
            Some(Error::InvalidAmount)
        } else {
            None
        }
    }

    /// The error of the first failing item among the first `n`.
    pub open spec fn first_release_item_error(&self, items: Seq<ReleaseFundsItem>, n: int, now: u64) -> Option<Error>
        decreases n,
    {
        if n <= 0 {
            None
        } else if self.first_release_item_error(items, n - 1, now) is Some {
            self.first_release_item_error(items, n - 1, now)
        } else {
            self.release_item_error(items, n - 1, now)
        }
    }

    /// The error, if any, of a batch release of `items` at `now`.
    pub open spec fn batch_release_error(&self, items: Seq<ReleaseFundsItem>, now: u64) -> Option<Error> {
        if self.paused(PauseOperation::Release) {
            Some(Error::FundsPaused)
        } else if items.len() == 0 || items.len() > MAX_BATCH_SIZE {
            Some(Error::InvalidBatchSize)
        } else if !self.initialized() {
            Some(Error::NotInitialized)
        } else {
            self.first_release_item_error(items, items.len() as int, now)
        }
    }

    /// Checks the items of a batch release in order; the error of the first
    /// failing one, or the total to release.
    fn check_release_items(&self, items: &Vec<ReleaseFundsItem>, now: u64) -> (r: Result<i128, Error>)
        requires
            self.wf(),
        ensures
            r is Ok <==> self.first_release_item_error(items@, items@.len() as int, now) is None,
            r matches Err(e) ==> self.first_release_item_error(items@, items@.len() as int, now) == Some(e),
            r matches Ok(t) ==> t == self.release_total(items@, items@.len() as int),
    {
        let mut total: i128 = 0;
        let mut i: usize = 0;
        while i < items.len()
            invariant
                self.wf(),
                i <= items.len(),
                self.first_release_item_error(items@, i as int, now) is None,
                total == self.release_total(items@, i as int),
                0 <= total,
            decreases items.len() - i,
        {
            let it = items[i];
            let dup = release_duplicated(items, i);
            let locked = self.is_escrow_locked(it.bounty_id, now);
            let mut err: Option<Error> = None;
            if locked {
                err = Some(Error::EscrowLocked);
            } else {
                match self.ledger.escrows.get(&it.bounty_id) {
                    None => {
                        err = Some(Error::BountyNotFound);
                    },
                    Some(e) => {
                        if e.status != EscrowStatus::Locked {
                            err = Some(Error::FundsNotLocked);
                        } else if dup {
                            err = Some(Error::DuplicateBountyId);
                        } else {
                            match total.checked_add(e.remaining_amount) {
                                None => {
                                    err = Some(Error::InvalidAmount);
                                },
                                Some(t) => {
                                    total = t;
                                },
                            }
                        }
                    },
                }
            }
            proof {
                assert(err == self.release_item_error(items@, i as int, now));
                assert(self.first_release_item_error(items@, i + 1, now) == err);
            }
            if err.is_some() {
                proof {
                    lemma_first_release_error_stable(*self, items@, i + 1, items@.len() as int, now);
                }
                return Err(err.unwrap());
            }
            i = i + 1;
        }
        Ok(total)
    }

    /// Releases what remains of every item's escrow to the item's
    /// contributor at once (admin only): all of them or, when any item fails
    /// its checks, none. Each escrow becomes `Released` with nothing
    /// remaining and its completion time recorded. Returns the number of
    /// escrows released.
    #[verifier::spinoff_prover]
    #[verifier::rlimit(30)]
    pub fn batch_release_funds(&mut self, now: u64, items: &Vec<ReleaseFundsItem>) -> (out: Outcome<u32>)
        requires
            old(self).wf(),
        ensures
            index_extended(*old(self), *final(self)),
            final(self).wf(),
            out.result is Ok <==> old(self).batch_release_error(items@, now) is None,
            out.result matches Err(e) ==> old(self).batch_release_error(items@, now) == Some(e),
            out.result is Err ==> *final(self) == *old(self),
            out.result is Err ==> out.transfers@.len() == 0 && out.events@.len() == 0,
            net_flow(out.transfers@) == total_remaining(final(self).ledger.escrows@) - total_remaining(old(self).ledger.escrows@),
            out.auths@ == (if !old(self).paused(PauseOperation::Release) && 0 < items@.len() <= MAX_BATCH_SIZE
                && old(self).initialized() {
                seq![old(self).config.admin->0]
            } else {
                Seq::<Address>::empty()
            }),
            out.result is Ok ==> out.result == Ok::<u32, Error>(items@.len() as u32),
            out.result is Ok ==> released_upto(final(self).ledger.escrows@, final(self).ledger.completed_at@,
                *old(self), items@, items@.len() as int, now),
            out.result is Ok ==> forall|k: u64| !release_prefix_has(items@, items@.len() as int, k) ==> {
                &&& (#[trigger] final(self).ledger.escrows@.contains_key(k) <==> old(self).ledger.escrows@.contains_key(k))
                &&& old(self).ledger.escrows@.contains_key(k) ==> final(self).ledger.escrows@[k] == old(self).ledger.escrows@[k]
                &&& (final(self).ledger.completed_at@.contains_key(k) <==> old(self).ledger.completed_at@.contains_key(k))
                &&& old(self).ledger.completed_at@.contains_key(k) ==> final(self).ledger.completed_at@[k] == old(self).ledger.completed_at@[k]
            },
            out.result is Ok ==> out.transfers@ == items@.map_values(|it: ReleaseFundsItem| Transfer::Payout {
                to: it.contributor,
                amount: old(self).escrow(it.bounty_id).remaining_amount,
            }),
            out.result is Ok ==> out.events@.len() == items@.len() + 2,
            out.result is Ok ==> forall|i: int| 0 <= i < items@.len() ==> #[trigger] out.events@[i] == (Event::FundsReleased {
                bounty_id: items@[i].bounty_id,
                amount: old(self).escrow(items@[i].bounty_id).remaining_amount,
                recipient: items@[i].contributor,
                timestamp: now,
            }),
            out.result is Ok ==> out.events@[items@.len() as int] == Event::BatchFundsReleased(BatchFundsReleased {
                count: items@.len() as u32,
                total_amount: old(self).release_total(items@, items@.len() as int) as i128,
                timestamp: now,
            }),
            out.result is Ok ==> (out.events@[items@.len() as int + 1] matches Event::EventBatch { kind, actions, total_amount, timestamp }
                && kind == OperationKind::Release && total_amount == old(self).release_total(items@, items@.len() as int)
                && timestamp == now
                && actions@ == items@.map_values(|it: ReleaseFundsItem| ActionSummary {
                    bounty_id: it.bounty_id,
                    kind: OperationKind::Release,
                    amount: old(self).escrow(it.bounty_id).remaining_amount,
                    timestamp: now,
                })),
            final(self).config == old(self).config,
            final(self).ledger.escrow_index == old(self).ledger.escrow_index,
            final(self).ledger.depositor_index == old(self).ledger.depositor_index,
            final(self).ledger.metadata == old(self).ledger.metadata,
            final(self).ledger.archived == old(self).ledger.archived,
            final(self).ledger.escrow_locks == old(self).ledger.escrow_locks,
            final(self).approvals == old(self).approvals,
            final(self).tickets == old(self).tickets,
            final(self).capabilities == old(self).capabilities,
            final(self).anti_abuse == old(self).anti_abuse,
            final(self).metrics == old(self).metrics,
    {
        if self.check_paused(PauseOperation::Release) {
            return Outcome::fail_early(Error::FundsPaused);
        }
        let n = items.len();
        if n == 0 || n > MAX_BATCH_SIZE {
            return Outcome::fail_early(Error::InvalidBatchSize);
        }
        let admin = match self.config.admin {
            Some(a) => a,
            None => {
                return Outcome::fail_early(Error::NotInitialized);
            },
        };
        let auths = auth_of(admin);
        let total = match self.check_release_items(items, now) {
            Err(e) => {
                return Outcome::fail(e, auths);
            },
            Ok(t) => t,
        };
        let ghost s0 = *old(self);
        let mut transfers: Vec<Transfer> = Vec::new();
        let mut events: Vec<Event> = Vec::new();
        let mut actions: Vec<ActionSummary> = Vec::new();
        let mut i: usize = 0;
        while i < n
            invariant
                n == items@.len(),
                i <= n,
                s0 == *old(self),
                s0.wf(),
                s0.first_release_item_error(items@, n as int, now) is None,
                escrows_sane(self.ledger.escrows@),
                total_remaining(self.ledger.escrows@) == total_remaining(s0.ledger.escrows@) - s0.release_total(items@, i as int),
                net_flow(transfers@) == -s0.release_total(items@, i as int),
                released_upto(self.ledger.escrows@, self.ledger.completed_at@, s0, items@, i as int, now),
                forall|k: u64| !release_prefix_has(items@, i as int, k) ==> {
                    &&& (#[trigger] self.ledger.escrows@.contains_key(k) <==> s0.ledger.escrows@.contains_key(k))
                    &&& s0.ledger.escrows@.contains_key(k) ==> self.ledger.escrows@[k] == s0.ledger.escrows@[k]
                    &&& (self.ledger.completed_at@.contains_key(k) <==> s0.ledger.completed_at@.contains_key(k))
                    &&& s0.ledger.completed_at@.contains_key(k) ==> self.ledger.completed_at@[k] == s0.ledger.completed_at@[k]
                },
                transfers@ == items@.take(i as int).map_values(|it: ReleaseFundsItem| Transfer::Payout {
                    to: it.contributor,
                    amount: s0.escrow(it.bounty_id).remaining_amount,
                }),
                actions@ == items@.take(i as int).map_values(|it: ReleaseFundsItem| ActionSummary {
                    bounty_id: it.bounty_id,
                    kind: OperationKind::Release,
                    amount: s0.escrow(it.bounty_id).remaining_amount,
                    timestamp: now,
                }),
                events@.len() == i,
                forall|j: int| 0 <= j < i ==> #[trigger] events@[j] == (Event::FundsReleased {
                    bounty_id: items@[j].bounty_id,
                    amount: s0.escrow(items@[j].bounty_id).remaining_amount,
                    recipient: items@[j].contributor,
                    timestamp: now,
                }),
                self.config == old(self).config,
                self.ledger.escrow_index == old(self).ledger.escrow_index,
                self.ledger.depositor_index == old(self).ledger.depositor_index,
                self.ledger.metadata == old(self).ledger.metadata,
                self.ledger.archived == old(self).ledger.archived,
                self.ledger.escrow_locks == old(self).ledger.escrow_locks,
                self.approvals == old(self).approvals,
                self.tickets == old(self).tickets,
                self.capabilities == old(self).capabilities,
                self.anti_abuse == old(self).anti_abuse,
                self.metrics == old(self).metrics,
            decreases n - i,
        {
            let it = items[i];
            let ghost before_escrows = self.ledger.escrows@;
            let ghost before_done = self.ledger.completed_at@;
            proof {
                lemma_first_release_item_error_prefix(s0, items@, n as int, i as int, now);
                assert(!release_prefix_has(items@, i as int, it.bounty_id)) by {
                    if release_prefix_has(items@, i as int, it.bounty_id) {
                        let j = choose|j: int| 0 <= j < i && #[trigger] items@[j].bounty_id == it.bounty_id;
                        assert(release_item_duplicated(items@, i as int));
                    }
                }
                assert(s0.ledger.escrows@.contains_key(it.bounty_id));
                assert(before_escrows.contains_key(it.bounty_id));
                assert(before_escrows[it.bounty_id] == s0.ledger.escrows@[it.bounty_id]);
            }
            let mut e = self.take_escrow(it.bounty_id);
            let amount = e.remaining_amount;
            e.status = EscrowStatus::Released;
            e.remaining_amount = 0;
            self.ledger.escrows.insert(it.bounty_id, e);
            self.ledger.completed_at.insert(it.bounty_id, now);
            proof {
                assert(self.ledger.escrows@.remove(it.bounty_id) =~= before_escrows.remove(it.bounty_id));
                lemma_escrow_set(before_escrows, self.ledger.escrows@, it.bounty_id,
                    with_progress(s0.escrow(it.bounty_id)@, 0, EscrowStatus::Released));
                lemma_net_flow_push(transfers@, Transfer::Payout { to: it.contributor, amount });
            }
            transfers.push(Transfer::Payout { to: it.contributor, amount });
            actions.push(ActionSummary { bounty_id: it.bounty_id, kind: OperationKind::Release, amount, timestamp: now });
            events.push(Event::FundsReleased { bounty_id: it.bounty_id, amount, recipient: it.contributor, timestamp: now });
            proof {
                assert(items@.take(i + 1) == items@.take(i as int).push(it));
                assert forall|j: int| 0 <= j < i + 1 implies {
                    &&& #[trigger] self.ledger.escrows@.contains_key(items@[j].bounty_id)
                    &&& self.ledger.escrows@[items@[j].bounty_id]@
                        == with_progress(s0.escrow(items@[j].bounty_id)@, 0, EscrowStatus::Released)
                    &&& self.ledger.completed_at@.contains_key(items@[j].bounty_id)
                    &&& self.ledger.completed_at@[items@[j].bounty_id] == now
                } by {
                    if j < i {
                        assert(before_escrows.contains_key(items@[j].bounty_id));
                        assert(before_done.contains_key(items@[j].bounty_id));
                        assert(items@[j].bounty_id != it.bounty_id) by {
                            if items@[j].bounty_id == it.bounty_id {
                                assert(release_item_duplicated(items@, i as int));
                            }
                        }
                    }
                }
                assert forall|k: u64| !release_prefix_has(items@, i + 1, k) implies {
                    &&& (#[trigger] self.ledger.escrows@.contains_key(k) <==> s0.ledger.escrows@.contains_key(k))
                    &&& s0.ledger.escrows@.contains_key(k) ==> self.ledger.escrows@[k] == s0.ledger.escrows@[k]
                    &&& (self.ledger.completed_at@.contains_key(k) <==> s0.ledger.completed_at@.contains_key(k))
                    &&& s0.ledger.completed_at@.contains_key(k) ==> self.ledger.completed_at@[k] == s0.ledger.completed_at@[k]
                } by {
                    assert(k != it.bounty_id) by {
                        if k == it.bounty_id {
                            assert(items@[i as int].bounty_id == k);
                        }
                    }
                    assert(!release_prefix_has(items@, i as int, k)) by {
                        if release_prefix_has(items@, i as int, k) {
                            let j = choose|j: int| 0 <= j < i && #[trigger] items@[j].bounty_id == k;
                            assert(0 <= j < i + 1 && items@[j].bounty_id == k);
                        }
                    }
                    if s0.ledger.escrows@.contains_key(k) {
                        assert(before_escrows.contains_key(k));
                    }
                    if before_escrows.contains_key(k) {
                        assert(s0.ledger.escrows@.contains_key(k));
                    }
                    if s0.ledger.completed_at@.contains_key(k) {
                        assert(before_done.contains_key(k));
                    }
                    if before_done.contains_key(k) {
                        assert(s0.ledger.completed_at@.contains_key(k));
                    }
                }
            }
            i = i + 1;
        }
        proof {
            assert(items@.take(n as int) == items@);
        }
        let count = n as u32;
        events.push(Event::BatchFundsReleased(BatchFundsReleased { count, total_amount: total, timestamp: now }));
        events.push(Event::EventBatch { kind: OperationKind::Release, actions, total_amount: total, timestamp: now });
        proof {
            assert forall|id: u64| #[trigger] final(self).approvals.pending_claims@.contains_key(id)
                implies final(self).ledger.escrows@.contains_key(id) by {
                assert(s0.approvals.pending_claims@.contains_key(id));
                assert(s0.ledger.escrows@.contains_key(id));
                if release_prefix_has(items@, n as int, id) {
                    let j = choose|j: int| 0 <= j < n && #[trigger] items@[j].bounty_id == id;
                    assert(final(self).ledger.escrows@.contains_key(items@[j].bounty_id));
                }
            }
        }
        Outcome { result: Ok(count), auths, transfers, events }
    }
}

/// Once some item among the first `m` fails, the first failure stays the
/// same for every longer prefix.
proof fn lemma_first_release_error_stable(s: BountyEscrowContract, items: Seq<ReleaseFundsItem>, m: int, n: int, now: u64)
    requires
        0 <= m <= n,
        s.first_release_item_error(items, m, now) is Some,
    ensures
        s.first_release_item_error(items, n, now) == s.first_release_item_error(items, m, now),
    decreases n - m,
{
    if m < n {
        lemma_first_release_error_stable(s, items, m, n - 1, now);
    }
}

/// When no item among the first `n` fails, no item before `n` fails.
proof fn lemma_first_release_item_error_prefix(s: BountyEscrowContract, items: Seq<ReleaseFundsItem>, n: int, i: int, now: u64)
    requires
        0 <= i < n,
        s.first_release_item_error(items, n, now) is None,
    ensures
        s.first_release_item_error(items, i, now) is None,
        s.release_item_error(items, i, now) is None,
    decreases n - i,
{
    assert(s.first_release_item_error(items, n - 1, now) is None);
    if i + 1 < n {
        lemma_first_release_item_error_prefix(s, items, n - 1, i, now);
    }
}

} // verus!
