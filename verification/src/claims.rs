//! Releases authorized as claims: the admin opens a claim for a recipient,
//! who must collect it within the claim window; the admin may cancel it.

use vstd::prelude::*;
use crate::anti_abuse::sat_add;
use crate::effects::{Event, Outcome, Transfer, auth_of, lemma_net_flow_one, net_flow};
use crate::state::{BountyEscrowContract, escrow_set, lemma_escrow_set, total_remaining, with_progress, index_extended};
use crate::types::{Address, ClaimRecord, DisputeOutcome, DisputeReason, Error, EscrowStatus, EscrowView, PauseOperation};

verus! {

broadcast use vstd::std_specs::hash::group_hash_axioms;

/// The value of escrow `e` after a claim of `amount` is collected from it:
/// what remains drops by the amount, and the escrow is `Released` once
/// nothing remains.
pub open spec fn collected_view(e: EscrowView, amount: i128) -> EscrowView {
    let left = e.remaining_amount - amount;
    with_progress(e, left as i128, if left == 0 { EscrowStatus::Released } else { e.status })
}

impl BountyEscrowContract {
    /// Sets the seconds a recipient has to collect a claim (admin only).
    pub fn set_claim_window(&mut self, claim_window: u64) -> (out: Outcome<()>)
        ensures
            index_extended(*old(self), *final(self)),
            out.result is Ok <==> old(self).initialized(),
            out.result matches Err(e) ==> e == Error::NotInitialized,
            out.auths@ == (if old(self).initialized() { seq![old(self).config.admin->0] } else { Seq::<Address>::empty() }),
            out.transfers@.len() == 0,
            out.events@.len() == 0,
            final(self).config.claim_window == (if old(self).initialized() { claim_window } else { old(self).config.claim_window }),
            final(self).config == (crate::state::Config { claim_window: final(self).config.claim_window, ..old(self).config }),
            final(self).ledger == old(self).ledger,
            final(self).approvals == old(self).approvals,
            final(self).tickets == old(self).tickets,
            final(self).capabilities == old(self).capabilities,
            final(self).anti_abuse == old(self).anti_abuse,
            final(self).metrics == old(self).metrics,
    {
        let admin = match self.config.admin {
            Some(a) => a,
            None => {
                return Outcome::fail_early(Error::NotInitialized);
            },
        };
        self.config.claim_window = claim_window;
        Outcome { result: Ok(()), auths: auth_of(admin), transfers: Vec::new(), events: Vec::new() }
    }

    /// The error, if any, of authorizing a claim on the escrow of `bounty_id`.
    pub open spec fn authorize_claim_error(&self, bounty_id: u64) -> Option<Error> {
        if self.paused(PauseOperation::Release) {
            Some(Error::FundsPaused)
        } else if !self.initialized() {
            Some(Error::NotInitialized)
        } else if !self.has_escrow(bounty_id) {
            Some(Error::BountyNotFound)
        } else if self.escrow(bounty_id).status != EscrowStatus::Locked {
            Some(Error::FundsNotLocked)
        } else {
            None
        }
    }

    /// Opens a claim of what remains in the escrow for `recipient` (admin
    /// only), collectable until `now` plus the claim window; it replaces any
    /// earlier claim on the escrow. While it is open, release and refund are
    /// blocked.
    pub fn authorize_claim(&mut self, now: u64, bounty_id: u64, recipient: Address, reason: DisputeReason) -> (out: Outcome<()>)
        requires
            old(self).wf(),
        ensures
            index_extended(*old(self), *final(self)),
            final(self).wf(),
            out.result is Ok <==> old(self).authorize_claim_error(bounty_id) is None,
            out.result matches Err(e) ==> old(self).authorize_claim_error(bounty_id) == Some(e),
            out.result is Err ==> *final(self) == *old(self),
            out.result is Err ==> out.transfers@.len() == 0 && out.events@.len() == 0,
            out.auths@ == (if !old(self).paused(PauseOperation::Release) && old(self).initialized() {
                seq![old(self).config.admin->0]
            } else {
                Seq::<Address>::empty()
            }),
            out.transfers@.len() == 0,
            out.result is Ok ==> {
                let claim = ClaimRecord {
                    bounty_id,
                    recipient,
                    amount: old(self).escrow(bounty_id).remaining_amount,
                    expires_at: sat_add(now, old(self).config.claim_window),
                    claimed: false,
                    reason,
                };
                &&& final(self).approvals.pending_claims@ == old(self).approvals.pending_claims@.insert(bounty_id, claim)
                &&& out.events@ == seq![Event::ClaimCreated {
                    bounty_id,
                    recipient,
                    amount: claim.amount,
                    expires_at: claim.expires_at,
                    reason,
                }]
            },
            final(self).approvals.refund_approvals == old(self).approvals.refund_approvals,
            final(self).approvals.release_approvals == old(self).approvals.release_approvals,
            final(self).config == old(self).config,
            final(self).ledger == old(self).ledger,
            final(self).tickets == old(self).tickets,
            final(self).capabilities == old(self).capabilities,
            final(self).anti_abuse == old(self).anti_abuse,
            final(self).metrics == old(self).metrics,
    {
        if self.check_paused(PauseOperation::Release) {
            return Outcome::fail_early(Error::FundsPaused);
        }
        let admin = match self.config.admin {
            Some(a) => a,
            None => {
                return Outcome::fail_early(Error::NotInitialized);
            },
        };
        let auths = auth_of(admin);
        let amount = match self.ledger.escrows.get(&bounty_id) {
            None => {
                return Outcome::fail(Error::BountyNotFound, auths);
            },
            Some(e) => {
                if e.status != EscrowStatus::Locked {
                    return Outcome::fail(Error::FundsNotLocked, auths);
                }
                e.remaining_amount
            },
        };
        let expires_at = now.saturating_add(self.config.claim_window);
        let claim = ClaimRecord { bounty_id, recipient, amount, expires_at, claimed: false, reason };
        self.approvals.pending_claims.insert(bounty_id, claim);
        let mut events = Vec::new();
        events.push(Event::ClaimCreated { bounty_id, recipient, amount, expires_at, reason });
        Outcome { result: Ok(()), auths, transfers: Vec::new(), events }
    }

    /// The error, if any, of collecting the claim on `bounty_id` at `now`.
    pub open spec fn claim_error(&self, bounty_id: u64, now: u64) -> Option<Error> {
        if self.paused(PauseOperation::Release) {
            Some(Error::FundsPaused)
        } else if !self.approvals.pending_claims@.contains_key(bounty_id) {
            Some(Error::BountyNotFound)
        } else if now > self.approvals.pending_claims@[bounty_id].expires_at {
            Some(Error::DeadlineNotPassed)
        } else if self.approvals.pending_claims@[bounty_id].claimed {
            Some(Error::FundsNotLocked)
        } else if self.approvals.pending_claims@[bounty_id].amount > self.escrow(bounty_id).remaining_amount {
            Some(Error::InsufficientFunds)
        } else {
            None
        }
    }

    /// The recipient collects the claim on `bounty_id` within its window: the
    /// claimed amount is paid to them out of what the escrow still holds, the
    /// escrow becomes `Released` once nothing remains, and the claim is
    /// marked collected.
    pub fn claim(&mut self, now: u64, bounty_id: u64) -> (out: Outcome<()>)
        requires
            old(self).wf(),
        ensures
            index_extended(*old(self), *final(self)),
            final(self).wf(),
            out.result is Ok <==> old(self).claim_error(bounty_id, now) is None,
            out.result matches Err(e) ==> old(self).claim_error(bounty_id, now) == Some(e),
            out.result is Err ==> *final(self) == *old(self),
            out.result is Err ==> out.transfers@.len() == 0 && out.events@.len() == 0,
            net_flow(out.transfers@) == total_remaining(final(self).ledger.escrows@) - total_remaining(old(self).ledger.escrows@),
            out.auths@ == (if !old(self).paused(PauseOperation::Release) && old(self).approvals.pending_claims@.contains_key(bounty_id) {
                seq![old(self).approvals.pending_claims@[bounty_id].recipient]
            } else {
                Seq::<Address>::empty()
            }),
            out.result is Ok ==> {
                let c = old(self).approvals.pending_claims@[bounty_id];
                &&& escrow_set(old(self).ledger.escrows@, final(self).ledger.escrows@, bounty_id,
                    collected_view(old(self).escrow(bounty_id)@, c.amount))
                &&& final(self).approvals.pending_claims@ == old(self).approvals.pending_claims@.insert(
                    bounty_id, ClaimRecord { claimed: true, ..c })
                &&& out.transfers@ == seq![Transfer::Payout { to: c.recipient, amount: c.amount }]
                &&& out.events@ == seq![Event::ClaimExecuted {
                    bounty_id,
                    recipient: c.recipient,
                    amount: c.amount,
                    claimed_at: now,
                    outcome: DisputeOutcome::ResolvedByPayout,
                }]
            },
            final(self).approvals.refund_approvals == old(self).approvals.refund_approvals,
            final(self).approvals.release_approvals == old(self).approvals.release_approvals,
            final(self).config == old(self).config,
            final(self).ledger.escrow_index == old(self).ledger.escrow_index,
            final(self).ledger.depositor_index == old(self).ledger.depositor_index,
            final(self).ledger.metadata == old(self).ledger.metadata,
            final(self).ledger.completed_at == old(self).ledger.completed_at,
            final(self).ledger.archived == old(self).ledger.archived,
            final(self).ledger.escrow_locks == old(self).ledger.escrow_locks,
            final(self).tickets == old(self).tickets,
            final(self).capabilities == old(self).capabilities,
            final(self).anti_abuse == old(self).anti_abuse,
            final(self).metrics == old(self).metrics,
    {
        if self.check_paused(PauseOperation::Release) {
            return Outcome::fail_early(Error::FundsPaused);
        }
        let c = match self.approvals.pending_claims.get(&bounty_id) {
            None => {
                return Outcome::fail_early(Error::BountyNotFound);
            },
            Some(c) => *c,
        };
        let auths = auth_of(c.recipient);
        if now > c.expires_at {
            return Outcome::fail(Error::DeadlineNotPassed, auths);
        }
        if c.claimed {
            return Outcome::fail(Error::FundsNotLocked, auths);
        }
        let remaining = match self.ledger.escrows.get(&bounty_id) {
            Some(e) => e.remaining_amount,
            None => 0,
        };
        if c.amount > remaining {
            return Outcome::fail(Error::InsufficientFunds, auths);
        }
        let mut escrow = self.take_escrow(bounty_id);
        escrow.remaining_amount = escrow.remaining_amount - c.amount;
        if escrow.remaining_amount == 0 {
            escrow.status = EscrowStatus::Released;
        }
        self.ledger.escrows.insert(bounty_id, escrow);
        self.approvals.pending_claims.insert(bounty_id, ClaimRecord { claimed: true, ..c });
        let mut transfers = Vec::new();
        transfers.push(Transfer::Payout { to: c.recipient, amount: c.amount });
        let mut events = Vec::new();
        events.push(Event::ClaimExecuted {
            bounty_id,
            recipient: c.recipient,
            amount: c.amount,
            claimed_at: now,
            outcome: DisputeOutcome::ResolvedByPayout,
        });
        proof {
            assert(final(self).ledger.escrows@.remove(bounty_id) =~= old(self).ledger.escrows@.remove(bounty_id));
            lemma_escrow_set(old(self).ledger.escrows@, final(self).ledger.escrows@, bounty_id,
                collected_view(old(self).escrow(bounty_id)@, c.amount));
            lemma_net_flow_one(Transfer::Payout { to: c.recipient, amount: c.amount });
        }
        Outcome { result: Ok(()), auths, transfers, events }
    }

    /// The error, if any, of cancelling the claim on `bounty_id`.
    pub open spec fn cancel_claim_error(&self, bounty_id: u64) -> Option<Error> {
        if !self.initialized() {
            Some(Error::NotInitialized)
        } else if !self.approvals.pending_claims@.contains_key(bounty_id) {
            Some(Error::BountyNotFound)
        } else if self.approvals.pending_claims@[bounty_id].claimed {
            Some(Error::FundsNotLocked)
        } else {
            None
        }
    }

    /// The admin cancels an uncollected claim, which unblocks release and
    /// refund of the escrow.
    pub fn cancel_pending_claim(&mut self, now: u64, bounty_id: u64, outcome: DisputeOutcome) -> (out: Outcome<()>)
        requires
            old(self).wf(),
        ensures
            index_extended(*old(self), *final(self)),
            final(self).wf(),
            out.result is Ok <==> old(self).cancel_claim_error(bounty_id) is None,
            out.result matches Err(e) ==> old(self).cancel_claim_error(bounty_id) == Some(e),
            out.result is Err ==> *final(self) == *old(self),
            out.result is Err ==> out.transfers@.len() == 0 && out.events@.len() == 0,
            out.auths@ == (if old(self).initialized() { seq![old(self).config.admin->0] } else { Seq::<Address>::empty() }),
            out.transfers@.len() == 0,
            out.result is Ok ==> {
                let c = old(self).approvals.pending_claims@[bounty_id];
                &&& final(self).approvals.pending_claims@ == old(self).approvals.pending_claims@.remove(bounty_id)
                &&& out.events@ == seq![Event::ClaimCancelled {
                    bounty_id,
                    recipient: c.recipient,
                    amount: c.amount,
                    cancelled_at: now,
                    cancelled_by: old(self).config.admin->0,
                    outcome,
                }]
            },
            final(self).approvals.refund_approvals == old(self).approvals.refund_approvals,
            final(self).approvals.release_approvals == old(self).approvals.release_approvals,
            final(self).config == old(self).config,
            final(self).ledger == old(self).ledger,
            final(self).tickets == old(self).tickets,
            final(self).capabilities == old(self).capabilities,
            final(self).anti_abuse == old(self).anti_abuse,
            final(self).metrics == old(self).metrics,
    {
        let admin = match self.config.admin {
            Some(a) => a,
            None => {
                return Outcome::fail_early(Error::NotInitialized);
            },
        };
        let auths = auth_of(admin);
        let c = match self.approvals.pending_claims.get(&bounty_id) {
            None => {
                return Outcome::fail(Error::BountyNotFound, auths);
            },
            Some(c) => *c,
        };
        if c.claimed {
            return Outcome::fail(Error::FundsNotLocked, auths);
        }
        self.approvals.pending_claims.remove(&bounty_id);
        let mut events = Vec::new();
        events.push(Event::ClaimCancelled {
            bounty_id,
            recipient: c.recipient,
            amount: c.amount,
            cancelled_at: now,
            cancelled_by: admin,
            outcome,
        });
        Outcome { result: Ok(()), auths, transfers: Vec::new(), events }
    }

    /// The claim recorded on `bounty_id`.
    pub fn get_pending_claim(&self, bounty_id: u64) -> (r: Result<ClaimRecord, Error>)
        ensures
            self.approvals.pending_claims@.contains_key(bounty_id) ==> r == Ok::<ClaimRecord, Error>(self.approvals.pending_claims@[bounty_id]),
            !self.approvals.pending_claims@.contains_key(bounty_id) ==> r == Err::<ClaimRecord, Error>(Error::BountyNotFound),
    {
        match self.approvals.pending_claims.get(&bounty_id) {
            Some(c) => Ok(*c),
            None => Err(Error::BountyNotFound),
        }
    }
}

} // verus!
