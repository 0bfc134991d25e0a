//! Release, refund and claim collection performed by the holder of a
//! capability instead of the admin or the claim's recipient.

use vstd::prelude::*;
use crate::claims::collected_view;
use crate::effects::{Event, Outcome, Transfer, lemma_net_flow_one, net_flow};
use crate::state::{BountyEscrowContract, escrow_set, lemma_escrow_set, total_remaining, with_progress, index_extended};
use crate::types::{Address, CapabilityAction, ClaimRecord, DisputeOutcome, Error, EscrowStatus, EscrowView, PauseOperation, RefundMode, RefundRecord};

verus! {

broadcast use vstd::std_specs::hash::group_hash_axioms;

impl BountyEscrowContract {
    /// The error, if any, of releasing `payout_amount` of the escrow of
    /// `bounty_id` with capability `capability_id` held by `holder`.
    pub open spec fn release_with_capability_error(&self, now: u64, bounty_id: u64, payout_amount: i128, holder: Address, capability_id: u64) -> Option<Error> {
        if self.paused(PauseOperation::Release) {
            Some(Error::FundsPaused)
        } else if self.owner_locked(bounty_id, now) {
            Some(Error::EscrowLocked)
        } else if payout_amount <= 0 {
            Some(Error::InvalidAmount)
        } else if !self.has_escrow(bounty_id) {
            Some(Error::BountyNotFound)
        } else if self.escrow(bounty_id).status != EscrowStatus::Locked {
            Some(Error::FundsNotLocked)
        } else if payout_amount > self.escrow(bounty_id).remaining_amount {
            Some(Error::InsufficientFunds)
        } else {
            self.consume_error(holder, capability_id, CapabilityAction::Release, bounty_id, payout_amount, now)
        }
    }

    /// Whether the checks before the capability is used all pass.
    pub open spec fn release_with_capability_prechecks(&self, now: u64, bounty_id: u64, payout_amount: i128) -> bool {
        !self.paused(PauseOperation::Release) && !self.owner_locked(bounty_id, now) && payout_amount > 0
            && self.has_escrow(bounty_id) && self.escrow(bounty_id).status == EscrowStatus::Locked
            && payout_amount <= self.escrow(bounty_id).remaining_amount
    }

    /// Pays `payout_amount` of the escrow of `bounty_id` to `contributor`,
    /// authorized by capability `capability_id` of `holder`, which is used
    /// once for that amount. The escrow becomes `Released`, with its
    /// completion time recorded, when nothing remains.
    pub fn release_with_capability(&mut self, now: u64, bounty_id: u64, contributor: Address, payout_amount: i128, holder: Address, capability_id: u64) -> (out: Outcome<()>)
        requires
            old(self).wf(),
        ensures
            index_extended(*old(self), *final(self)),
            final(self).wf(),
            out.result is Ok <==> old(self).release_with_capability_error(now, bounty_id, payout_amount, holder, capability_id) is None,
            out.result matches Err(e) ==> old(self).release_with_capability_error(now, bounty_id, payout_amount, holder, capability_id) == Some(e),
            out.result is Err ==> *final(self) == *old(self),
            out.result is Err ==> out.transfers@.len() == 0 && out.events@.len() == 0,
            net_flow(out.transfers@) == total_remaining(final(self).ledger.escrows@) - total_remaining(old(self).ledger.escrows@),
            out.auths@ == (if old(self).release_with_capability_prechecks(now, bounty_id, payout_amount)
                && old(self).consume_reaches_auth(holder, capability_id, CapabilityAction::Release, bounty_id, payout_amount, now) {
                seq![holder]
            } else {
                Seq::<Address>::empty()
            }),
            out.result is Ok ==> {
                let e = old(self).escrow(bounty_id);
                let left = e.remaining_amount - payout_amount;
                let c = old(self).used_capability(capability_id, payout_amount);
                &&& escrow_set(old(self).ledger.escrows@, final(self).ledger.escrows@, bounty_id,
                    with_progress(e@, left as i128, if left == 0 { EscrowStatus::Released } else { EscrowStatus::Locked }))
                &&& final(self).ledger.completed_at@ == (if left == 0 {
                    old(self).ledger.completed_at@.insert(bounty_id, now)
                } else {
                    old(self).ledger.completed_at@
                })
                &&& final(self).capabilities.capabilities@ == old(self).capabilities.capabilities@.insert(capability_id, c)
                &&& out.transfers@ == seq![Transfer::Payout { to: contributor, amount: payout_amount }]
                &&& out.events@ == seq![
                    Event::CapabilityUsed {
                        capability_id,
                        holder,
                        action: c.action,
                        bounty_id,
                        amount_used: payout_amount,
                        remaining_amount: c.remaining_amount,
                        remaining_uses: c.remaining_uses,
                        used_at: now,
                    },
                    Event::FundsReleased { bounty_id, amount: payout_amount, recipient: contributor, timestamp: now },
                ]
            },
            out.result is Err ==> final(self).capabilities == old(self).capabilities,
            final(self).capabilities.capability_nonce == old(self).capabilities.capability_nonce,
            final(self).config == old(self).config,
            final(self).ledger.escrow_index == old(self).ledger.escrow_index,
            final(self).ledger.depositor_index == old(self).ledger.depositor_index,
            final(self).ledger.metadata == old(self).ledger.metadata,
            final(self).ledger.archived == old(self).ledger.archived,
            final(self).ledger.escrow_locks == old(self).ledger.escrow_locks,
            final(self).approvals == old(self).approvals,
            final(self).tickets == old(self).tickets,
            final(self).anti_abuse == old(self).anti_abuse,
            final(self).metrics == old(self).metrics,
    {
        if self.check_paused(PauseOperation::Release) {
            return Outcome::fail_early(Error::FundsPaused);
        }
        if self.is_escrow_locked(bounty_id, now) {
            return Outcome::fail_early(Error::EscrowLocked);
        }
        if payout_amount <= 0 {
            return Outcome::fail_early(Error::InvalidAmount);
        }
        match self.ledger.escrows.get(&bounty_id) {
            None => {
                return Outcome::fail_early(Error::BountyNotFound);
            },
            Some(e) => {
                if e.status != EscrowStatus::Locked {
                    return Outcome::fail_early(Error::FundsNotLocked);
                }
                if payout_amount > e.remaining_amount {
                    return Outcome::fail_early(Error::InsufficientFunds);
                }
            },
        }
        let used = self.consume_capability(now, holder, capability_id, CapabilityAction::Release, bounty_id, payout_amount);
        let auths = used.auths;
        let mut events = used.events;
        if let Err(e) = used.result {
            return Outcome::fail(e, auths);
        }
        let mut escrow = self.take_escrow(bounty_id);
        escrow.remaining_amount = escrow.remaining_amount - payout_amount;
        if escrow.remaining_amount == 0 {
            escrow.status = EscrowStatus::Released;
            self.ledger.completed_at.insert(bounty_id, now);
        }
        self.ledger.escrows.insert(bounty_id, escrow);
        let mut transfers = Vec::new();
        transfers.push(Transfer::Payout { to: contributor, amount: payout_amount });
        events.push(Event::FundsReleased { bounty_id, amount: payout_amount, recipient: contributor, timestamp: now });
        proof {
            assert(final(self).ledger.escrows@.remove(bounty_id) =~= old(self).ledger.escrows@.remove(bounty_id));
            let e = old(self).escrow(bounty_id);
            let left = e.remaining_amount - payout_amount;
            lemma_escrow_set(old(self).ledger.escrows@, final(self).ledger.escrows@, bounty_id,
                with_progress(e@, left as i128, if left == 0 { EscrowStatus::Released } else { EscrowStatus::Locked }));
            lemma_net_flow_one(Transfer::Payout { to: contributor, amount: payout_amount });
        }
        Outcome { result: Ok(()), auths, transfers, events }
    }

    /// The error, if any, of collecting the claim on `bounty_id` with
    /// capability `capability_id` held by `holder`.
    pub open spec fn claim_with_capability_error(&self, now: u64, bounty_id: u64, holder: Address, capability_id: u64) -> Option<Error> {
        if self.paused(PauseOperation::Release) {
            Some(Error::FundsPaused)
        } else if !self.approvals.pending_claims@.contains_key(bounty_id) {
            Some(Error::BountyNotFound)
        } else if now > self.approvals.pending_claims@[bounty_id].expires_at {
            Some(Error::DeadlineNotPassed)
        } else if self.approvals.pending_claims@[bounty_id].claimed {
            Some(Error::FundsNotLocked)
        } else if self.approvals.pending_claims@[bounty_id].amount > self.escrow(bounty_id).remaining_amount {
            Some(Error::InsufficientFunds)
        } else {
            self.consume_error(holder, capability_id, CapabilityAction::Claim, bounty_id,
                self.approvals.pending_claims@[bounty_id].amount, now)
        }
    }

    /// Collects the claim on `bounty_id` on behalf of its recipient with
    /// capability `capability_id` of `holder`, used once for the claimed
    /// amount: the recipient is paid out of what the escrow still holds, the
    /// escrow becomes `Released` once nothing remains, and the claim is
    /// marked collected.
    pub fn claim_with_capability(&mut self, now: u64, bounty_id: u64, holder: Address, capability_id: u64) -> (out: Outcome<()>)
        requires
            old(self).wf(),
        ensures
            index_extended(*old(self), *final(self)),
            final(self).wf(),
            out.result is Ok <==> old(self).claim_with_capability_error(now, bounty_id, holder, capability_id) is None,
            out.result matches Err(e) ==> old(self).claim_with_capability_error(now, bounty_id, holder, capability_id) == Some(e),
            out.result is Err ==> *final(self) == *old(self),
            out.result is Err ==> out.transfers@.len() == 0 && out.events@.len() == 0,
            net_flow(out.transfers@) == total_remaining(final(self).ledger.escrows@) - total_remaining(old(self).ledger.escrows@),
            out.auths@ == (if !old(self).paused(PauseOperation::Release) && old(self).approvals.pending_claims@.contains_key(bounty_id)
                && now <= old(self).approvals.pending_claims@[bounty_id].expires_at
                && !old(self).approvals.pending_claims@[bounty_id].claimed
                && old(self).approvals.pending_claims@[bounty_id].amount <= old(self).escrow(bounty_id).remaining_amount
                && old(self).consume_reaches_auth(holder, capability_id, CapabilityAction::Claim, bounty_id,
                    old(self).approvals.pending_claims@[bounty_id].amount, now) {
                seq![holder]
            } else {
                Seq::<Address>::empty()
            }),
            out.result is Ok ==> {
                let cl = old(self).approvals.pending_claims@[bounty_id];
                let c = old(self).used_capability(capability_id, cl.amount);
                let e = old(self).escrow(bounty_id);
                &&& escrow_set(old(self).ledger.escrows@, final(self).ledger.escrows@, bounty_id,
                    collected_view(e@, cl.amount))
                &&& final(self).approvals.pending_claims@ == old(self).approvals.pending_claims@.insert(
                    bounty_id, ClaimRecord { claimed: true, ..cl })
                &&& final(self).capabilities.capabilities@ == old(self).capabilities.capabilities@.insert(capability_id, c)
                &&& out.transfers@ == seq![Transfer::Payout { to: cl.recipient, amount: cl.amount }]
                &&& out.events@ == seq![
                    Event::CapabilityUsed {
                        capability_id,
                        holder,
                        action: c.action,
                        bounty_id,
                        amount_used: cl.amount,
                        remaining_amount: c.remaining_amount,
                        remaining_uses: c.remaining_uses,
                        used_at: now,
                    },
                    Event::ClaimExecuted {
                        bounty_id,
                        recipient: cl.recipient,
                        amount: cl.amount,
                        claimed_at: now,
                        outcome: DisputeOutcome::ResolvedByPayout,
                    },
                ]
            },
            out.result is Err ==> final(self).capabilities == old(self).capabilities,
            final(self).capabilities.capability_nonce == old(self).capabilities.capability_nonce,
            final(self).config == old(self).config,
            final(self).ledger.escrow_index == old(self).ledger.escrow_index,
            final(self).ledger.depositor_index == old(self).ledger.depositor_index,
            final(self).ledger.metadata == old(self).ledger.metadata,
            final(self).ledger.completed_at == old(self).ledger.completed_at,
            final(self).ledger.archived == old(self).ledger.archived,
            final(self).ledger.escrow_locks == old(self).ledger.escrow_locks,
            final(self).approvals.refund_approvals == old(self).approvals.refund_approvals,
            final(self).approvals.release_approvals == old(self).approvals.release_approvals,
            final(self).tickets == old(self).tickets,
            final(self).anti_abuse == old(self).anti_abuse,
            final(self).metrics == old(self).metrics,
    {
        if self.check_paused(PauseOperation::Release) {
            return Outcome::fail_early(Error::FundsPaused);
        }
        let cl = match self.approvals.pending_claims.get(&bounty_id) {
            None => {
                return Outcome::fail_early(Error::BountyNotFound);
            },
            Some(c) => *c,
        };
        if now > cl.expires_at {
            return Outcome::fail_early(Error::DeadlineNotPassed);
        }
        if cl.claimed {
            return Outcome::fail_early(Error::FundsNotLocked);
        }
        let remaining = match self.ledger.escrows.get(&bounty_id) {
            Some(e) => e.remaining_amount,
            None => 0,
        };
        if cl.amount > remaining {
            return Outcome::fail_early(Error::InsufficientFunds);
        }
        let used = self.consume_capability(now, holder, capability_id, CapabilityAction::Claim, bounty_id, cl.amount);
        let auths = used.auths;
        let mut events = used.events;
        if let Err(e) = used.result {
            return Outcome::fail(e, auths);
        }
        let mut escrow = self.take_escrow(bounty_id);
        escrow.remaining_amount = escrow.remaining_amount - cl.amount;
        if escrow.remaining_amount == 0 {
            escrow.status = EscrowStatus::Released;
        }
        self.ledger.escrows.insert(bounty_id, escrow);
        self.approvals.pending_claims.insert(bounty_id, ClaimRecord { claimed: true, ..cl });
        let mut transfers = Vec::new();
        transfers.push(Transfer::Payout { to: cl.recipient, amount: cl.amount });
        events.push(Event::ClaimExecuted {
            bounty_id,
            recipient: cl.recipient,
            amount: cl.amount,
            claimed_at: now,
            outcome: DisputeOutcome::ResolvedByPayout,
        });
        proof {
            assert(final(self).ledger.escrows@.remove(bounty_id) =~= old(self).ledger.escrows@.remove(bounty_id));
            lemma_escrow_set(old(self).ledger.escrows@, final(self).ledger.escrows@, bounty_id,
                collected_view(old(self).escrow(bounty_id)@, cl.amount));
            lemma_net_flow_one(Transfer::Payout { to: cl.recipient, amount: cl.amount });
        }
        Outcome { result: Ok(()), auths, transfers, events }
    }

    /// The error, if any, of refunding `amount` of the escrow of `bounty_id`
    /// with capability `capability_id` held by `holder`.
    pub open spec fn refund_with_capability_error(&self, now: u64, bounty_id: u64, amount: i128, holder: Address, capability_id: u64) -> Option<Error> {
        if self.paused(PauseOperation::Refund) {
            Some(Error::FundsPaused)
        } else if self.owner_locked(bounty_id, now) {
            Some(Error::EscrowLocked)
        } else if amount <= 0 {
            Some(Error::InvalidAmount)
        } else if !self.has_escrow(bounty_id) {
            Some(Error::BountyNotFound)
        } else if self.escrow(bounty_id).status != EscrowStatus::Locked
            && self.escrow(bounty_id).status != EscrowStatus::PartiallyRefunded {
            Some(Error::FundsNotLocked)
        } else if amount > self.escrow(bounty_id).remaining_amount {
            Some(Error::InvalidAmount)
        } else if self.claim_open(bounty_id) {
            Some(Error::ClaimPending)
        } else {
            self.consume_error(holder, capability_id, CapabilityAction::Refund, bounty_id, amount, now)
        }
    }

    /// Whether the checks before the capability is used all pass.
    pub open spec fn refund_with_capability_prechecks(&self, now: u64, bounty_id: u64, amount: i128) -> bool {
        !self.paused(PauseOperation::Refund) && !self.owner_locked(bounty_id, now) && amount > 0
            && self.has_escrow(bounty_id) && (self.escrow(bounty_id).status == EscrowStatus::Locked
                || self.escrow(bounty_id).status == EscrowStatus::PartiallyRefunded)
            && amount <= self.escrow(bounty_id).remaining_amount && !self.claim_open(bounty_id)
    }

    /// The escrow value after a delegated refund of `amount` at `now`.
    pub open spec fn delegated_refund_view(&self, bounty_id: u64, amount: i128, now: u64) -> EscrowView {
        let e = self.escrow(bounty_id)@;
        let left = e.remaining_amount - amount;
        EscrowView {
            remaining_amount: left as i128,
            status: if left == 0 { EscrowStatus::Refunded } else { EscrowStatus::PartiallyRefunded },
            refund_history: e.refund_history.push(RefundRecord {
                amount,
                recipient: e.depositor,
                timestamp: now,
                mode: if left == 0 { RefundMode::Full } else { RefundMode::Partial },
            }),
            ..e
        }
    }

    /// Refunds `amount` of the escrow of `bounty_id` to its depositor,
    /// authorized by capability `capability_id` of `holder`, which is used
    /// once for that amount. The refund is recorded in the escrow's history;
    /// the escrow becomes `Refunded` when nothing remains and
    /// `PartiallyRefunded` otherwise.
    pub fn refund_with_capability(&mut self, now: u64, bounty_id: u64, amount: i128, holder: Address, capability_id: u64) -> (out: Outcome<()>)
        requires
            old(self).wf(),
        ensures
            index_extended(*old(self), *final(self)),
            final(self).wf(),
            out.result is Ok <==> old(self).refund_with_capability_error(now, bounty_id, amount, holder, capability_id) is None,
            out.result matches Err(e) ==> old(self).refund_with_capability_error(now, bounty_id, amount, holder, capability_id) == Some(e),
            out.result is Err ==> *final(self) == *old(self),
            out.result is Err ==> out.transfers@.len() == 0 && out.events@.len() == 0,
            net_flow(out.transfers@) == total_remaining(final(self).ledger.escrows@) - total_remaining(old(self).ledger.escrows@),
            out.auths@ == (if old(self).refund_with_capability_prechecks(now, bounty_id, amount)
                && old(self).consume_reaches_auth(holder, capability_id, CapabilityAction::Refund, bounty_id, amount, now) {
                seq![holder]
            } else {
                Seq::<Address>::empty()
            }),
            out.result is Ok ==> {
                let e = old(self).escrow(bounty_id);
                let c = old(self).used_capability(capability_id, amount);
                &&& escrow_set(old(self).ledger.escrows@, final(self).ledger.escrows@, bounty_id,
                    old(self).delegated_refund_view(bounty_id, amount, now))
                &&& final(self).capabilities.capabilities@ == old(self).capabilities.capabilities@.insert(capability_id, c)
                &&& out.transfers@ == seq![Transfer::Payout { to: e.depositor, amount }]
                &&& out.events@ == seq![
                    Event::CapabilityUsed {
                        capability_id,
                        holder,
                        action: c.action,
                        bounty_id,
                        amount_used: amount,
                        remaining_amount: c.remaining_amount,
                        remaining_uses: c.remaining_uses,
                        used_at: now,
                    },
                    Event::FundsRefunded { bounty_id, amount, refund_to: e.depositor, timestamp: now },
                ]
            },
            out.result is Err ==> final(self).capabilities == old(self).capabilities,
            final(self).capabilities.capability_nonce == old(self).capabilities.capability_nonce,
            final(self).config == old(self).config,
            final(self).ledger.escrow_index == old(self).ledger.escrow_index,
            final(self).ledger.depositor_index == old(self).ledger.depositor_index,
            final(self).ledger.metadata == old(self).ledger.metadata,
            final(self).ledger.completed_at == old(self).ledger.completed_at,
            final(self).ledger.archived == old(self).ledger.archived,
            final(self).ledger.escrow_locks == old(self).ledger.escrow_locks,
            final(self).approvals == old(self).approvals,
            final(self).tickets == old(self).tickets,
            final(self).anti_abuse == old(self).anti_abuse,
            final(self).metrics == old(self).metrics,
    {
        if self.check_paused(PauseOperation::Refund) {
            return Outcome::fail_early(Error::FundsPaused);
        }
        if self.is_escrow_locked(bounty_id, now) {
            return Outcome::fail_early(Error::EscrowLocked);
        }
        if amount <= 0 {
            return Outcome::fail_early(Error::InvalidAmount);
        }
        match self.ledger.escrows.get(&bounty_id) {
            None => {
                return Outcome::fail_early(Error::BountyNotFound);
            },
            Some(e) => {
                if e.status != EscrowStatus::Locked && e.status != EscrowStatus::PartiallyRefunded {
                    return Outcome::fail_early(Error::FundsNotLocked);
                }
                if amount > e.remaining_amount {
                    return Outcome::fail_early(Error::InvalidAmount);
                }
            },
        }
        if self.has_open_claim(bounty_id) {
            return Outcome::fail_early(Error::ClaimPending);
        }
        let used = self.consume_capability(now, holder, capability_id, CapabilityAction::Refund, bounty_id, amount);
        let auths = used.auths;
        let mut events = used.events;
        if let Err(e) = used.result {
            return Outcome::fail(e, auths);
        }
        let mut escrow = self.take_escrow(bounty_id);
        let refund_to = escrow.depositor;
        escrow.remaining_amount = escrow.remaining_amount - amount;
        let full = escrow.remaining_amount == 0;
        escrow.status = if full { EscrowStatus::Refunded } else { EscrowStatus::PartiallyRefunded };
        escrow.refund_history.push(RefundRecord {
            amount,
            recipient: refund_to,
            timestamp: now,
            mode: if full { RefundMode::Full } else { RefundMode::Partial },
        });
        self.ledger.escrows.insert(bounty_id, escrow);
        let mut transfers = Vec::new();
        transfers.push(Transfer::Payout { to: refund_to, amount });
        events.push(Event::FundsRefunded { bounty_id, amount, refund_to, timestamp: now });
        proof {
            assert(final(self).ledger.escrows@.remove(bounty_id) =~= old(self).ledger.escrows@.remove(bounty_id));
            lemma_escrow_set(old(self).ledger.escrows@, final(self).ledger.escrows@, bounty_id,
                old(self).delegated_refund_view(bounty_id, amount, now));
            lemma_net_flow_one(Transfer::Payout { to: refund_to, amount });
        }
        Outcome { result: Ok(()), auths, transfers, events }
    }
}

} // verus!
