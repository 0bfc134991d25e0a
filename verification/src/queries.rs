//! Read-only queries over the escrows.

use vstd::prelude::*;
use crate::state::{BountyEscrowContract, index_seq};
use crate::tickets::{page, page_of};
use crate::types::{
    Address, AggregateStats, Error, Escrow, EscrowStatus, EscrowWithId, RefundApproval, RefundRecord,
    copy_refund_history, escrow_sane, verify_escrow_invariants,
};

verus! {

broadcast use vstd::std_specs::hash::group_hash_axioms;

/// A condition on escrows by which queries select.
#[derive(Copy, Clone, Debug, PartialEq, Eq, Structural)]
pub enum EscrowFilter {
    /// Escrows in the given status.
    Status(EscrowStatus),
    /// Escrows whose locked amount lies in the inclusive range.
    AmountRange(i128, i128),
    /// Escrows whose deadline lies in the inclusive range.
    DeadlineRange(u64, u64),
    /// Every escrow.
    Any,
}

/// Whether `e` satisfies the filter.
pub open spec fn keeps(f: EscrowFilter, e: Escrow) -> bool {
    match f {
        EscrowFilter::Status(s) => e.status == s,
        EscrowFilter::AmountRange(lo, hi) => lo <= e.amount <= hi,
        EscrowFilter::DeadlineRange(lo, hi) => lo <= e.deadline <= hi,
        EscrowFilter::Any => true,
    }
}

fn keeps_exec(f: EscrowFilter, e: &Escrow) -> (b: bool)
    ensures
        b == keeps(f, *e),
{
    match f {
        EscrowFilter::Status(s) => e.status == s,
        EscrowFilter::AmountRange(lo, hi) => lo <= e.amount && e.amount <= hi,
        EscrowFilter::DeadlineRange(lo, hi) => lo <= e.deadline && e.deadline <= hi,
        EscrowFilter::Any => true,
    }
}

impl BountyEscrowContract {
    /// The identifiers among the first `n` of `ids` that have an escrow
    /// satisfying `f`, in order.
    pub open spec fn selected(&self, ids: Seq<u64>, n: int, f: EscrowFilter) -> Seq<u64>
        decreases n,
    {
        if n <= 0 {
            Seq::empty()
        } else if self.has_escrow(ids[n - 1]) && keeps(f, self.escrow(ids[n - 1])) {
            self.selected(ids, n - 1, f).push(ids[n - 1])
        } else {
            self.selected(ids, n - 1, f)
        }
    }

    /// The identifiers of `ids` that have an escrow satisfying `f`, in order.
    pub open spec fn select(&self, ids: Seq<u64>, f: EscrowFilter) -> Seq<u64> {
        self.selected(ids, ids.len() as int, f)
    }

    /// Whether `r` lists, in order, the escrows of `ids` with their identifiers.
    pub open spec fn lists_escrows(&self, r: Seq<EscrowWithId>, ids: Seq<u64>) -> bool {
        &&& r.len() == ids.len()
        &&& forall|i: int| 0 <= i < r.len() ==> {
            &&& #[trigger] r[i].bounty_id == ids[i]
            &&& self.has_escrow(ids[i])
            &&& r[i].escrow@ == self.escrow(ids[i])@
        }
    }

    /// The identifiers of `ids` that have an escrow satisfying `f`.
    pub fn select_ids(&self, ids: &Vec<u64>, f: EscrowFilter) -> (r: Vec<u64>)
        ensures
            r@ == self.select(ids@, f),
            forall|i: int| 0 <= i < r@.len() ==> self.has_escrow(#[trigger] r@[i]),
    {
        let mut r: Vec<u64> = Vec::new();
        let mut i: usize = 0;
        while i < ids.len()
            invariant
                i <= ids.len(),
                r@ == self.selected(ids@, i as int, f),
                forall|j: int| 0 <= j < r@.len() ==> self.has_escrow(#[trigger] r@[j]),
            decreases ids.len() - i,
        {
            let id = ids[i];
            match self.ledger.escrows.get(&id) {
                Some(e) => {
                    if keeps_exec(f, e) {
                        r.push(id);
                    }
                },
                None => {},
            }
            i = i + 1;
        }
        r
    }

    /// The escrows of `ids`, each with its identifier; every one must exist.
    pub fn escrows_with_ids(&self, ids: &Vec<u64>) -> (r: Vec<EscrowWithId>)
        requires
            forall|i: int| 0 <= i < ids@.len() ==> self.has_escrow(#[trigger] ids@[i]),
        ensures
            self.lists_escrows(r@, ids@),
    {
        let mut r: Vec<EscrowWithId> = Vec::new();
        let mut i: usize = 0;
        while i < ids.len()
            invariant
                i <= ids.len(),
                forall|j: int| 0 <= j < ids@.len() ==> self.has_escrow(#[trigger] ids@[j]),
                self.lists_escrows(r@, ids@.take(i as int)),
            decreases ids.len() - i,
        {
            let id = ids[i];
            let e = match self.ledger.escrows.get(&id) {
                Some(e) => e.duplicate(),
                None => {
                    proof {
                        assert(self.has_escrow(ids@[i as int]));
                    }
                    return r;
                },
            };
            r.push(EscrowWithId { bounty_id: id, escrow: e });
            i = i + 1;
        }
        proof {
            assert(ids@.take(ids@.len() as int) == ids@);
        }
        r
    }

    /// A page of the escrows satisfying `f`, in creation order: the first
    /// `offset` of them are skipped and at most `limit` returned.
    pub fn query_escrows(&self, f: EscrowFilter, offset: u32, limit: u32) -> (r: Vec<EscrowWithId>)
        ensures
            self.lists_escrows(r@, page(self.select(self.ledger.escrow_index@, f), offset as int, limit as int)),
    {
        let ids = self.select_ids(&self.ledger.escrow_index, f);
        let p = page_of(&ids, offset, limit);
        proof {
            assert forall|i: int| 0 <= i < p@.len() implies self.has_escrow(#[trigger] p@[i]) by {
                let start = if (offset as int) < ids@.len() { offset as int } else { ids@.len() as int };
                assert(p@[i] == ids@[start + i]);
            }
        }
        self.escrows_with_ids(&p)
    }

    /// A page of the escrows in `status`, in creation order.
    pub fn query_escrows_by_status(&self, status: EscrowStatus, offset: u32, limit: u32) -> (r: Vec<EscrowWithId>)
        ensures
            self.lists_escrows(r@, page(self.select(self.ledger.escrow_index@, EscrowFilter::Status(status)), offset as int, limit as int)),
    {
        self.query_escrows(EscrowFilter::Status(status), offset, limit)
    }

    /// A page of the escrows whose locked amount lies in `[min_amount, max_amount]`.
    pub fn query_escrows_by_amount(&self, min_amount: i128, max_amount: i128, offset: u32, limit: u32) -> (r: Vec<EscrowWithId>)
        ensures
            self.lists_escrows(r@, page(self.select(self.ledger.escrow_index@, EscrowFilter::AmountRange(min_amount, max_amount)),
                offset as int, limit as int)),
    {
        self.query_escrows(EscrowFilter::AmountRange(min_amount, max_amount), offset, limit)
    }

    /// A page of the escrows whose deadline lies in `[min_deadline, max_deadline]`.
    pub fn query_escrows_by_deadline(&self, min_deadline: u64, max_deadline: u64, offset: u32, limit: u32) -> (r: Vec<EscrowWithId>)
        ensures
            self.lists_escrows(r@, page(self.select(self.ledger.escrow_index@, EscrowFilter::DeadlineRange(min_deadline, max_deadline)),
                offset as int, limit as int)),
    {
        self.query_escrows(EscrowFilter::DeadlineRange(min_deadline, max_deadline), offset, limit)
    }

    /// The escrows recorded for `depositor`, from position `offset` of their
    /// list, at most `limit` of them (those whose escrow no longer exists are
    /// left out).
    pub fn query_escrows_by_depositor(&self, depositor: Address, offset: u32, limit: u32) -> (r: Vec<EscrowWithId>)
        requires
            offset + limit <= u32::MAX,
        ensures
            self.lists_escrows(r@, self.select(page(index_seq(self.ledger.depositor_index@, depositor.id), offset as int, limit as int),
                EscrowFilter::Any)),
    {
        let p = match self.ledger.depositor_index.get(&depositor.id) {
            Some(v) => page_of(v, offset, limit),
            None => Vec::new(),
        };
        let ids = self.select_ids(&p, EscrowFilter::Any);
        self.escrows_with_ids(&ids)
    }

    /// A page of the identifiers of the escrows in `status`, in creation order.
    pub fn get_escrow_ids_by_status(&self, status: EscrowStatus, offset: u32, limit: u32) -> (r: Vec<u64>)
        ensures
            r@ == page(self.select(self.ledger.escrow_index@, EscrowFilter::Status(status)), offset as int, limit as int),
    {
        let ids = self.select_ids(&self.ledger.escrow_index, EscrowFilter::Status(status));
        page_of(&ids, offset, limit)
    }

    /// The number of escrows ever created.
    pub fn get_escrow_count(&self) -> (n: u32)
        requires
            self.ledger.escrow_index@.len() <= u32::MAX,
        ensures
            n == self.ledger.escrow_index@.len(),
    {
        self.ledger.escrow_index.len() as u32
    }

    /// The escrow of `bounty_id`.
    pub fn get_escrow_info(&self, bounty_id: u64) -> (r: Result<Escrow, Error>)
        ensures
            self.has_escrow(bounty_id) ==> (r matches Ok(e) && e@ == self.escrow(bounty_id)@),
            !self.has_escrow(bounty_id) ==> r == Err::<Escrow, Error>(Error::BountyNotFound),
    {
        match self.ledger.escrows.get(&bounty_id) {
            Some(e) => Ok(e.duplicate()),
            None => Err(Error::BountyNotFound),
        }
    }

    /// The refunds paid out of the escrow of `bounty_id`, oldest first.
    pub fn get_refund_history(&self, bounty_id: u64) -> (r: Result<Vec<RefundRecord>, Error>)
        ensures
            self.has_escrow(bounty_id) ==> (r matches Ok(h) && h@ == self.escrow(bounty_id).refund_history@),
            !self.has_escrow(bounty_id) ==> r == Err::<Vec<RefundRecord>, Error>(Error::BountyNotFound),
    {
        match self.ledger.escrows.get(&bounty_id) {
            Some(e) => Ok(copy_refund_history(&e.refund_history)),
            None => Err(Error::BountyNotFound),
        }
    }

    /// Whether the escrow of `bounty_id` can be refunded at `now`, whether its
    /// deadline has passed, what remains in it, and the refund approval on
    /// record, if any. A refund is possible when the escrow holds funds and
    /// the deadline has passed or an approval exists.
    pub fn get_refund_eligibility(&self, now: u64, bounty_id: u64) -> (r: Result<(bool, bool, i128, Option<RefundApproval>), Error>)
        ensures
            !self.has_escrow(bounty_id) ==> r == Err::<(bool, bool, i128, Option<RefundApproval>), Error>(Error::BountyNotFound),
            self.has_escrow(bounty_id) ==> {
                let e = self.escrow(bounty_id);
                let passed = now >= e.deadline;
                let approval = if self.approvals.refund_approvals@.contains_key(bounty_id) {
                    Some(self.approvals.refund_approvals@[bounty_id])
                } else {
                    None
                };
                r == Ok::<(bool, bool, i128, Option<RefundApproval>), Error>((
                    (e.status == EscrowStatus::Locked || e.status == EscrowStatus::PartiallyRefunded)
                        && (passed || approval is Some),
                    passed,
                    e.remaining_amount,
                    approval,
                ))
            },
    {
        let e = match self.ledger.escrows.get(&bounty_id) {
            None => {
                return Err(Error::BountyNotFound);
            },
            Some(e) => e,
        };
        let passed = now >= e.deadline;
        let approval = match self.approvals.refund_approvals.get(&bounty_id) {
            Some(a) => Some(*a),
            None => None,
        };
        let can_refund = (e.status == EscrowStatus::Locked || e.status == EscrowStatus::PartiallyRefunded)
            && (passed || approval.is_some());
        Ok((can_refund, passed, e.remaining_amount, approval))
    }

    /// Whether the escrow of `bounty_id` exists and is sane: non-negative
    /// amounts, no more remaining than locked, nothing remaining once released.
    pub fn verify_state(&self, bounty_id: u64) -> (b: bool)
        ensures
            b == (self.has_escrow(bounty_id) && escrow_sane(self.escrow(bounty_id)@)),
    {
        match self.ledger.escrows.get(&bounty_id) {
            Some(e) => verify_escrow_invariants(e),
            None => false,
        }
    }

    /// The escrowed token's balance held by the contract, as read by the
    /// caller from the token; refused when no token is configured.
    pub fn get_balance(&self, contract_balance: i128) -> (r: Result<i128, Error>)
        ensures
            self.config.token is Some ==> r == Ok::<i128, Error>(contract_balance),
            self.config.token is None ==> r == Err::<i128, Error>(Error::NotInitialized),
    {
        if self.config.token.is_none() {
            return Err(Error::NotInitialized);
        }
        Ok(contract_balance)
    }
}

} // verus!
