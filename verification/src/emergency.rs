//! Admin controls over refunds: approving early or partial refunds, and
//! withdrawing everything while locking is paused.

use vstd::prelude::*;
use crate::effects::{Event, Outcome, Transfer, auth_of, lemma_net_flow_one, net_flow};
use crate::state::{
    BountyEscrowContract, escrows_sane, held, lemma_held_over_nonneg, lemma_held_over_zero, stored_escrow_ok,
    total_remaining, index_extended};
use crate::types::{Address, Error, Escrow, EscrowStatus, RefundApproval, RefundMode};

verus! {

broadcast use vstd::std_specs::hash::group_hash_axioms;

/// Whether an escrow still holds funds that a withdrawal takes.
pub open spec fn holds_funds(e: Escrow) -> bool {
    e.status == EscrowStatus::Locked || e.status == EscrowStatus::PartiallyRefunded
}

/// An escrow emptied by an emergency withdrawal.
pub open spec fn drained(e: Escrow) -> Escrow {
    Escrow { remaining_amount: 0, status: EscrowStatus::Refunded, ..e }
}

/// The escrows after an emergency withdrawal: those listed in `index` that
/// still held funds are emptied and marked `Refunded`.
pub open spec fn drain_listed(m: Map<u64, Escrow>, index: Seq<u64>) -> Map<u64, Escrow> {
    Map::new(
        |k: u64| m.contains_key(k),
        |k: u64| if index.contains(k) && holds_funds(m[k]) { drained(m[k]) } else { m[k] },
    )
}

impl BountyEscrowContract {
    /// The error, if any, of approving a refund of `amount` from the escrow of
    /// `bounty_id`.
    pub open spec fn approve_refund_error(&self, bounty_id: u64, amount: i128) -> Option<Error> {
        if !self.initialized() {
            Some(Error::NotInitialized)
        } else if !self.has_escrow(bounty_id) {
            Some(Error::BountyNotFound)
        } else if self.escrow(bounty_id).status != EscrowStatus::Locked
            && self.escrow(bounty_id).status != EscrowStatus::PartiallyRefunded {
            Some(Error::FundsNotLocked)
        } else if amount <= 0 || amount > self.escrow(bounty_id).remaining_amount {
            Some(Error::InvalidAmount)
        } else {
            None
        }
    }

    /// Records the admin's approval of a refund of `amount` from the escrow of
    /// `bounty_id` to `recipient`, usable before the deadline; it replaces any
    /// earlier approval.
    pub fn approve_refund(&mut self, now: u64, bounty_id: u64, amount: i128, recipient: Address, mode: RefundMode) -> (out: Outcome<()>)
        ensures
            index_extended(*old(self), *final(self)),
            out.result is Ok <==> old(self).approve_refund_error(bounty_id, amount) is None,
            out.result matches Err(e) ==> old(self).approve_refund_error(bounty_id, amount) == Some(e),
            out.result is Err ==> *final(self) == *old(self),
            out.result is Err ==> out.transfers@.len() == 0 && out.events@.len() == 0,
            out.auths@ == (if old(self).initialized() { seq![old(self).config.admin->0] } else { Seq::<Address>::empty() }),
            out.transfers@.len() == 0,
            out.events@.len() == 0,
            out.result is Ok ==> final(self).approvals.refund_approvals@ == old(self).approvals.refund_approvals@.insert(
                bounty_id,
                RefundApproval { bounty_id, amount, recipient, mode, approved_by: old(self).config.admin->0, approved_at: now },
            ),
            out.result is Err ==> final(self).approvals.refund_approvals == old(self).approvals.refund_approvals,
            final(self).approvals.release_approvals == old(self).approvals.release_approvals,
            final(self).approvals.pending_claims == old(self).approvals.pending_claims,
            final(self).config == old(self).config,
            final(self).ledger == old(self).ledger,
            final(self).tickets == old(self).tickets,
            final(self).capabilities == old(self).capabilities,
            final(self).anti_abuse == old(self).anti_abuse,
            final(self).metrics == old(self).metrics,
    {
        let admin = match self.config.admin {
            Some(a) => a,
            None => {
                return Outcome::fail_early(Error::NotInitialized);
            },
        };
        let auths = auth_of(admin);
        match self.ledger.escrows.get(&bounty_id) {
            None => {
                return Outcome::fail(Error::BountyNotFound, auths);
            },
            Some(e) => {
                if e.status != EscrowStatus::Locked && e.status != EscrowStatus::PartiallyRefunded {
                    return Outcome::fail(Error::FundsNotLocked, auths);
                }
                if amount <= 0 || amount > e.remaining_amount {
                    return Outcome::fail(Error::InvalidAmount, auths);
                }
            },
        }
        self.approvals.refund_approvals.insert(
            bounty_id,
            RefundApproval { bounty_id, amount, recipient, mode, approved_by: admin, approved_at: now },
        );
        Outcome { result: Ok(()), auths, transfers: Vec::new(), events: Vec::new() }
    }

    /// Pays the contract's whole token balance (`contract_balance`, read from
    /// the token by the caller) to `target` and empties every listed escrow
    /// that still held funds, marking it `Refunded` (admin only; locking must
    /// be paused). Nothing is paid when the balance is not positive. When the
    /// balance is exactly what the escrows hold and every escrow holding
    /// anything is listed and still active, the escrows hold nothing
    /// afterwards and the payout is exactly what they held.
    pub fn emergency_withdraw(&mut self, now: u64, target: Address, contract_balance: i128) -> (out: Outcome<()>)
        requires
            old(self).wf(),
        ensures
            index_extended(*old(self), *final(self)),
            final(self).wf(),
            out.result is Ok <==> old(self).initialized() && old(self).config.pause_flags.lock_paused,
            !old(self).initialized() ==> out.result == Err::<(), Error>(Error::NotInitialized),
            old(self).initialized() && !old(self).config.pause_flags.lock_paused ==> out.result == Err::<(), Error>(Error::NotPaused),
            out.result is Err ==> *final(self) == *old(self),
            out.result is Err ==> out.transfers@.len() == 0 && out.events@.len() == 0,
            out.auths@ == (if old(self).initialized() { seq![old(self).config.admin->0] } else { Seq::<Address>::empty() }),
            out.result is Ok ==> {
                &&& final(self).ledger.escrows@ == drain_listed(old(self).ledger.escrows@, old(self).ledger.escrow_index@)
                &&& contract_balance > 0 ==> out.transfers@ == seq![Transfer::Payout { to: target, amount: contract_balance }]
                &&& contract_balance > 0 ==> out.events@ == seq![Event::EmergencyWithdraw {
                    admin: old(self).config.admin->0,
                    recipient: target,
                    amount: contract_balance,
                    timestamp: now,
                }]
                &&& contract_balance <= 0 ==> out.transfers@.len() == 0 && out.events@.len() == 0
            },
            out.result is Ok && contract_balance == total_remaining(old(self).ledger.escrows@)
                && (forall|k: u64| #[trigger] old(self).ledger.escrows@.contains_key(k)
                    && old(self).ledger.escrows@[k].remaining_amount > 0
                    ==> old(self).ledger.escrow_index@.contains(k) && holds_funds(old(self).ledger.escrows@[k]))
                ==> total_remaining(final(self).ledger.escrows@) == 0
                    && net_flow(out.transfers@) == total_remaining(final(self).ledger.escrows@)
                        - total_remaining(old(self).ledger.escrows@),
            final(self).ledger.completed_at == old(self).ledger.completed_at,
            final(self).approvals.refund_approvals == old(self).approvals.refund_approvals,
            final(self).metrics.operation_count == old(self).metrics.operation_count,
            final(self).same_outside_settlement(old(self)),
    {
        let admin = match self.config.admin {
            Some(a) => a,
            None => {
                return Outcome::fail_early(Error::NotInitialized);
            },
        };
        let auths = auth_of(admin);
        if !self.config.pause_flags.lock_paused {
            return Outcome::fail(Error::NotPaused, auths);
        }
        let mut transfers = Vec::new();
        let mut events = Vec::new();
        if contract_balance > 0 {
            transfers.push(Transfer::Payout { to: target, amount: contract_balance });
            events.push(Event::EmergencyWithdraw { admin, recipient: target, amount: contract_balance, timestamp: now });
        }
        let ghost old_escrows = self.ledger.escrows@;
        let ghost index = self.ledger.escrow_index@;
        let n = self.ledger.escrow_index.len();
        let mut i: usize = 0;
        while i < n
            invariant
                n == self.ledger.escrow_index@.len(),
                index == self.ledger.escrow_index@,
                i <= n,
                self.ledger.escrows@ == drain_listed(old_escrows, index.take(i as int)),
                escrows_sane(old_escrows),
                old_escrows == old(self).ledger.escrows@,
                self.config == old(self).config,
                self.ledger.escrow_index == old(self).ledger.escrow_index,
                self.ledger.depositor_index == old(self).ledger.depositor_index,
                self.ledger.metadata == old(self).ledger.metadata,
                self.ledger.completed_at == old(self).ledger.completed_at,
                self.ledger.archived == old(self).ledger.archived,
                self.ledger.escrow_locks == old(self).ledger.escrow_locks,
                self.approvals == old(self).approvals,
                self.tickets == old(self).tickets,
                self.capabilities == old(self).capabilities,
                self.anti_abuse == old(self).anti_abuse,
                self.metrics == old(self).metrics,
            decreases n - i,
        {
            let id = self.ledger.escrow_index[i];
            let active = match self.ledger.escrows.get(&id) {
                Some(e) => e.status == EscrowStatus::Locked || e.status == EscrowStatus::PartiallyRefunded,
                None => false,
            };
            proof {
                assert(index.take(i + 1) == index.take(i as int).push(id));
                assert forall|k: u64| #[trigger] index.take(i + 1).contains(k) <==> (index.take(i as int).contains(k) || k == id) by {
                    if index.take(i + 1).contains(k) {
                        let j = choose|j: int| 0 <= j < i + 1 && #[trigger] index.take(i + 1)[j] == k;
                        if j < i {
                            assert(index.take(i as int)[j] == k);
                        }
                    }
                    if index.take(i as int).contains(k) {
                        let j = choose|j: int| 0 <= j < i && #[trigger] index.take(i as int)[j] == k;
                        assert(index.take(i + 1)[j] == k);
                    }
                    if k == id {
                        assert(index.take(i + 1)[i as int] == id);
                    }
                }
            }
            if active {
                let mut e = match self.ledger.escrows.remove(&id) {
                    Some(e) => e,
                    None => {
                        proof {
                            assert(false);
                        }
                        return Outcome::fail(Error::NotInitialized, auths);
                    },
                };
                e.remaining_amount = 0;
                e.status = EscrowStatus::Refunded;
                self.ledger.escrows.insert(id, e);
                proof {
                    assert(!index.take(i as int).contains(id));
                    assert(self.ledger.escrows@ =~= drain_listed(old_escrows, index.take(i + 1)));
                }
            } else {
                proof {
                    if old_escrows.contains_key(id) && holds_funds(old_escrows[id]) {
                        assert(index.take(i as int).contains(id));
                    }
                    assert(self.ledger.escrows@ =~= drain_listed(old_escrows, index.take(i + 1)));
                }
            }
            i = i + 1;
        }
        proof {
            assert(index.take(n as int) == index);
            let m0 = old_escrows;
            let m1 = self.ledger.escrows@;
            assert forall|k: u64| #[trigger] m1.contains_key(k) implies stored_escrow_ok(m1[k]@) by {
                assert(m0.contains_key(k));
            }
            if contract_balance == total_remaining(m0) && (forall|k: u64| #[trigger] m0.contains_key(k)
                && m0[k].remaining_amount > 0 ==> index.contains(k) && holds_funds(m0[k])) {
                assert forall|k: u64| m1.dom().contains(k) implies held(m1, k) == 0 by {
                    assert(m0.contains_key(k));
                }
                lemma_held_over_zero(m1, m1.dom());
                lemma_held_over_nonneg(m0, m0.dom());
                if contract_balance > 0 {
                    lemma_net_flow_one(Transfer::Payout { to: target, amount: contract_balance });
                }
            }
        }
        Outcome { result: Ok(()), auths, transfers, events }
    }
}

} // verus!
