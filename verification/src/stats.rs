//! Totals over all escrows, and the contract-wide consistency check.

use vstd::prelude::*;
use crate::state::BountyEscrowContract;
use crate::types::{AggregateStats, EscrowStatus, escrow_sane};

verus! {

broadcast use vstd::std_specs::hash::group_hash_axioms;

/// Totals as mathematical integers: locked, released and refunded amounts,
/// then the counts of each.
pub struct Totals {
    pub locked: int,
    pub released: int,
    pub refunded: int,
    pub n_locked: int,
    pub n_released: int,
    pub n_refunded: int,
}

impl BountyEscrowContract {
    /// The totals over the escrows of the first `n` identifiers of `ids`, by
    /// status; partially refunded escrows count as refunded, templates not at
    /// all.
    pub open spec fn totals(&self, ids: Seq<u64>, n: int) -> Totals
        decreases n,
    {
        if n <= 0 {
            Totals { locked: 0, released: 0, refunded: 0, n_locked: 0, n_released: 0, n_refunded: 0 }
        } else {
            let t = self.totals(ids, n - 1);
            let id = ids[n - 1];
            if !self.has_escrow(id) {
                t
            } else {
                let e = self.escrow(id);
                match e.status {
                    EscrowStatus::Locked => Totals { locked: t.locked + e.amount, n_locked: t.n_locked + 1, ..t },
                    EscrowStatus::Released => Totals { released: t.released + e.amount, n_released: t.n_released + 1, ..t },
                    EscrowStatus::Refunded | EscrowStatus::PartiallyRefunded => Totals {
                        refunded: t.refunded + e.amount,
                        n_refunded: t.n_refunded + 1,
                        ..t
                    },
                    EscrowStatus::Template => t,
                }
            }
        }
    }

    /// Whether the totals over all escrows fit the reported integer types.
    pub open spec fn totals_fit(&self) -> bool {
        let t = self.totals(self.ledger.escrow_index@, self.ledger.escrow_index@.len() as int);
        &&& t.locked <= i128::MAX
        &&& t.released <= i128::MAX
        &&& t.refunded <= i128::MAX
        &&& t.n_locked <= u32::MAX
        &&& t.n_released <= u32::MAX
        &&& t.n_refunded <= u32::MAX
    }

    /// The totals over all escrows, when they fit; `None` when some total
    /// would overflow.
    pub fn aggregate_stats_checked(&self) -> (r: Option<AggregateStats>)
        requires
            self.wf(),
        ensures
            r is Some <==> self.totals_fit(),
            r matches Some(s) ==> {
                let t = self.totals(self.ledger.escrow_index@, self.ledger.escrow_index@.len() as int);
                &&& s.total_locked == t.locked
                &&& s.total_released == t.released
                &&& s.total_refunded == t.refunded
                &&& s.count_locked == t.n_locked
                &&& s.count_released == t.n_released
                &&& s.count_refunded == t.n_refunded
            },
    {
        let ids = &self.ledger.escrow_index;
        let mut s = AggregateStats {
            total_locked: 0,
            total_released: 0,
            total_refunded: 0,
            count_locked: 0,
            count_released: 0,
            count_refunded: 0,
        };
        let mut i: usize = 0;
        while i < ids.len()
            invariant
                self.wf(),
                i <= ids.len(),
                ids@ == self.ledger.escrow_index@,
                ({
                    let t = self.totals(ids@, i as int);
                    &&& s.total_locked == t.locked
                    &&& s.total_released == t.released
                    &&& s.total_refunded == t.refunded
                    &&& s.count_locked == t.n_locked
                    &&& s.count_released == t.n_released
                    &&& s.count_refunded == t.n_refunded
                }),
            decreases ids.len() - i,
        {
            let id = ids[i];
            proof {
                self.lemma_totals_monotone(ids@, (i + 1) as int, ids@.len() as int);
            }
            match self.ledger.escrows.get(&id) {
                None => {},
                Some(e) => {
                    match e.status {
                        EscrowStatus::Locked => {
                            match (s.total_locked.checked_add(e.amount), s.count_locked.checked_add(1)) {
                                (Some(a), Some(c)) => {
                                    s.total_locked = a;
                                    s.count_locked = c;
                                },
                                _ => {
                                    return None;
                                },
                            }
                        },
                        EscrowStatus::Released => {
                            match (s.total_released.checked_add(e.amount), s.count_released.checked_add(1)) {
                                (Some(a), Some(c)) => {
                                    s.total_released = a;
                                    s.count_released = c;
                                },
                                _ => {
                                    return None;
                                },
                            }
                        },
                        EscrowStatus::Refunded | EscrowStatus::PartiallyRefunded => {
                            match (s.total_refunded.checked_add(e.amount), s.count_refunded.checked_add(1)) {
                                (Some(a), Some(c)) => {
                                    s.total_refunded = a;
                                    s.count_refunded = c;
                                },
                                _ => {
                                    return None;
                                },
                            }
                        },
                        EscrowStatus::Template => {},
                    }
                },
            }
            i = i + 1;
        }
        Some(s)
    }

    /// The totals of locked, released and refunded amounts and the counts of
    /// each (partially refunded escrows count as refunded; templates are left
    /// out).
    pub fn get_aggregate_stats(&self) -> (s: AggregateStats)
        requires
            self.wf(),
            self.totals_fit(),
        ensures
            ({
                let t = self.totals(self.ledger.escrow_index@, self.ledger.escrow_index@.len() as int);
                &&& s.total_locked == t.locked
                &&& s.total_released == t.released
                &&& s.total_refunded == t.refunded
                &&& s.count_locked == t.n_locked
                &&& s.count_released == t.n_released
                &&& s.count_refunded == t.n_refunded
            }),
    {
        match self.aggregate_stats_checked() {
            Some(s) => s,
            None => {
                proof {
                    assert(false);
                }
                AggregateStats {
                    total_locked: 0,
                    total_released: 0,
                    total_refunded: 0,
                    count_locked: 0,
                    count_released: 0,
                    count_refunded: 0,
                }
            },
        }
    }

    /// Totals only grow along the index.
    proof fn lemma_totals_monotone(&self, ids: Seq<u64>, i: int, n: int)
        requires
            self.wf(),
            0 <= i <= n <= ids.len(),
        ensures
            ({
                let a = self.totals(ids, i);
                let b = self.totals(ids, n);
                &&& 0 <= a.locked <= b.locked
                &&& 0 <= a.released <= b.released
                &&& 0 <= a.refunded <= b.refunded
                &&& 0 <= a.n_locked <= b.n_locked
                &&& 0 <= a.n_released <= b.n_released
                &&& 0 <= a.n_refunded <= b.n_refunded
            }),
        decreases n - i,
    {
        if i < n {
            self.lemma_totals_monotone(ids, i, n - 1);
            let id = ids[n - 1];
            if self.has_escrow(id) {
                assert(self.ledger.escrows@.contains_key(id));
            }
        } else {
            self.lemma_totals_nonneg(ids, n);
        }
    }

    /// Totals are never negative.
    proof fn lemma_totals_nonneg(&self, ids: Seq<u64>, n: int)
        requires
            self.wf(),
            n <= ids.len(),
        ensures
            ({
                let a = self.totals(ids, n);
                &&& 0 <= a.locked && 0 <= a.released && 0 <= a.refunded
                &&& 0 <= a.n_locked && 0 <= a.n_released && 0 <= a.n_refunded
            }),
        decreases n,
    {
        if n > 0 {
            self.lemma_totals_nonneg(ids, n - 1);
            if self.has_escrow(ids[n - 1]) {
                assert(self.ledger.escrows@.contains_key(ids[n - 1]));
            }
        }
    }

    /// Whether every listed escrow is sane and the remaining amounts of the
    /// first `n` listed escrows sum to `sum`.
    pub open spec fn remaining_sum(&self, ids: Seq<u64>, n: int) -> int
        decreases n,
    {
        if n <= 0 {
            0
        } else if self.has_escrow(ids[n - 1]) {
            self.remaining_sum(ids, n - 1) + self.escrow(ids[n - 1]).remaining_amount
        } else {
            self.remaining_sum(ids, n - 1)
        }
    }

    /// The contract-wide consistency conditions, given the contract's token
    /// balance: the contract is initialized; every listed escrow exists, is
    /// sane, is listed once, and has refunded no more than it paid out; every
    /// escrow is listed; and the remaining amounts sum to the balance.
    pub open spec fn all_invariants_hold(&self, contract_balance: i128) -> bool {
        let ids = self.ledger.escrow_index@;
        &&& self.initialized()
        &&& ids.no_duplicates()
        &&& forall|i: int| 0 <= i < ids.len() ==> self.has_escrow(#[trigger] ids[i])
        &&& forall|i: int| 0 <= i < ids.len() ==> escrow_sane(self.escrow(#[trigger] ids[i])@)
        &&& forall|i: int| 0 <= i < ids.len() ==> history_consistent(#[trigger] self.escrow(ids[i])@)
        &&& ids.len() == self.ledger.escrows@.dom().len()
        &&& self.remaining_sum(ids, ids.len() as int) == contract_balance
    }
}

/// Every refund of the escrow is positive and together they do not exceed
/// what has left the escrow.
pub open spec fn history_consistent(e: crate::types::EscrowView) -> bool {
    &&& forall|k: int| 0 <= k < e.refund_history.len() ==> 0 < #[trigger] e.refund_history[k].amount
    &&& refunded_total(e.refund_history, e.refund_history.len() as int) <= e.amount - e.remaining_amount
}

/// Refund totals of positive refunds grow with the prefix.
proof fn lemma_refunded_total_monotone(h: Seq<crate::types::RefundRecord>, i: int, n: int)
    requires
        0 <= i <= n <= h.len(),
        forall|k: int| 0 <= k < h.len() ==> 0 < #[trigger] h[k].amount,
    ensures
        0 <= refunded_total(h, i) <= refunded_total(h, n),
    decreases n - i,
{
    if i < n {
        lemma_refunded_total_monotone(h, i, n - 1);
    } else if n > 0 {
        lemma_refunded_total_nonneg(h, n);
    }
}

/// Refund totals of positive refunds are not negative.
proof fn lemma_refunded_total_nonneg(h: Seq<crate::types::RefundRecord>, n: int)
    requires
        0 <= n <= h.len(),
        forall|k: int| 0 <= k < h.len() ==> 0 < #[trigger] h[k].amount,
    ensures
        0 <= refunded_total(h, n),
    decreases n,
{
    if n > 0 {
        lemma_refunded_total_nonneg(h, n - 1);
    }
}

/// Checks that the refunds of `e` are positive and do not exceed what left it.
pub fn check_history(e: &crate::types::Escrow) -> (b: bool)
    requires
        crate::types::escrow_sane(e@),
    ensures
        b == history_consistent(e@),
{
    let h = &e.refund_history;
    let bound = e.amount - e.remaining_amount;
    let mut i: usize = 0;
    while i < h.len()
        invariant
            i <= h.len(),
            h@ == e.refund_history@,
            forall|k: int| 0 <= k < i ==> 0 < #[trigger] h@[k].amount,
        decreases h.len() - i,
    {
        if h[i].amount <= 0 {
            proof {
                assert(e@.refund_history[i as int].amount <= 0);
            }
            return false;
        }
        i = i + 1;
    }
    let mut sum: i128 = 0;
    let mut i: usize = 0;
    while i < h.len()
        invariant
            i <= h.len(),
            h@ == e.refund_history@,
            forall|k: int| 0 <= k < h@.len() ==> 0 < #[trigger] h@[k].amount,
            bound == e.amount - e.remaining_amount,
            0 <= bound,
            sum == refunded_total(h@, i as int),
            0 <= sum,
            sum <= bound,
        decreases h.len() - i,
    {
        proof {
            lemma_refunded_total_monotone(h@, (i + 1) as int, h@.len() as int);
        }
        if h[i].amount > bound - sum {
            proof {
                lemma_refunded_total_monotone(h@, (i + 1) as int, h@.len() as int);
            }
            return false;
        }
        sum = sum + h[i].amount;
        i = i + 1;
    }
    true
}

/// The sum of the first `n` refunds of a history.
pub open spec fn refunded_total(h: Seq<crate::types::RefundRecord>, n: int) -> int
    decreases n,
{
    if n <= 0 { 0 } else { refunded_total(h, n - 1) + h[n - 1].amount }
}

impl BountyEscrowContract {
    /// Whether the identifiers `ids` hold no repetition.
    fn no_repeats(ids: &Vec<u64>) -> (b: bool)
        ensures
            b == ids@.no_duplicates(),
    {
        let mut i: usize = 0;
        while i < ids.len()
            invariant
                i <= ids.len(),
                forall|a: int, b: int| 0 <= a < b < ids@.len() && a < i ==> ids@[a] != ids@[b],
            decreases ids.len() - i,
        {
            let mut j: usize = i + 1;
            while j < ids.len()
                invariant
                    i < ids.len(),
                    i + 1 <= j <= ids.len(),
                    forall|a: int, b: int| 0 <= a < b < ids@.len() && a < i ==> ids@[a] != ids@[b],
                    forall|b: int| i < b < j ==> ids@[i as int] != ids@[b],
                decreases ids.len() - j,
            {
                if ids[i] == ids[j] {
                    return false;
                }
                j = j + 1;
            }
            i = i + 1;
        }
        true
    }

    /// Checks the contract-wide consistency conditions against the contract's
    /// token balance, as read by the caller from the token.
    pub fn verify_all_invariants(&self, contract_balance: i128) -> (b: bool)
        ensures
            b == self.all_invariants_hold(contract_balance),
    {
        if self.config.admin.is_none() {
            return false;
        }
        let ids = &self.ledger.escrow_index;
        if !Self::no_repeats(ids) {
            return false;
        }
        let mut i: usize = 0;
        while i < ids.len()
            invariant
                i <= ids.len(),
                ids@ == self.ledger.escrow_index@,
                forall|j: int| 0 <= j < i ==> self.has_escrow(#[trigger] ids@[j]),
                forall|j: int| 0 <= j < i ==> escrow_sane(self.escrow(#[trigger] ids@[j])@),
                forall|j: int| 0 <= j < i ==> history_consistent(#[trigger] self.escrow(ids@[j])@),
            decreases ids.len() - i,
        {
            match self.ledger.escrows.get(&ids[i]) {
                None => {
                    return false;
                },
                Some(e) => {
                    if !crate::types::verify_escrow_invariants(e) {
                        return false;
                    }
                    if !check_history(e) {
                        return false;
                    }
                },
            }
            i = i + 1;
        }
        if ids.len() != self.ledger.escrows.len() {
            return false;
        }
        if contract_balance < 0 {
            proof {
                self.lemma_remaining_sum_nonneg(ids@, ids@.len() as int);
            }
            return false;
        }
        let mut sum: i128 = 0;
        let mut i: usize = 0;
        while i < ids.len()
            invariant
                i <= ids.len(),
                ids@ == self.ledger.escrow_index@,
                forall|j: int| 0 <= j < ids@.len() ==> self.has_escrow(#[trigger] ids@[j]),
                forall|j: int| 0 <= j < ids@.len() ==> escrow_sane(self.escrow(#[trigger] ids@[j])@),
                sum == self.remaining_sum(ids@, i as int),
                0 <= sum,
                sum <= contract_balance,
            decreases ids.len() - i,
        {
            let r = match self.ledger.escrows.get(&ids[i]) {
                Some(e) => e.remaining_amount,
                None => 0,
            };
            proof {
                self.lemma_remaining_sum_monotone(ids@, (i + 1) as int, ids@.len() as int);
            }
            if r > contract_balance - sum {
                return false;
            }
            sum = sum + r;
            i = i + 1;
        }
        sum == contract_balance
    }

    /// Sums of sane remaining amounts grow along the index.
    proof fn lemma_remaining_sum_monotone(&self, ids: Seq<u64>, i: int, n: int)
        requires
            0 <= i <= n <= ids.len(),
            forall|j: int| 0 <= j < ids.len() ==> self.has_escrow(#[trigger] ids[j]),
            forall|j: int| 0 <= j < ids.len() ==> escrow_sane(self.escrow(#[trigger] ids[j])@),
        ensures
            0 <= self.remaining_sum(ids, i) <= self.remaining_sum(ids, n),
        decreases n - i,
    {
        if i < n {
            self.lemma_remaining_sum_monotone(ids, i, n - 1);
            assert(escrow_sane(self.escrow(ids[n - 1])@));
        } else {
            self.lemma_remaining_sum_nonneg(ids, n);
        }
    }

    /// Sums of sane remaining amounts are not negative.
    proof fn lemma_remaining_sum_nonneg(&self, ids: Seq<u64>, n: int)
        requires
            0 <= n <= ids.len(),
            forall|j: int| 0 <= j < ids.len() ==> escrow_sane(self.escrow(#[trigger] ids[j])@),
        ensures
            0 <= self.remaining_sum(ids, n),
        decreases n,
    {
        if n > 0 {
            self.lemma_remaining_sum_nonneg(ids, n - 1);
            assert(escrow_sane(self.escrow(ids[n - 1])@));
        }
    }
}

} // verus!
