//! Locking funds for a bounty, releasing them to a contributor, and
//! refunding them to the depositor.

use vstd::prelude::*;
use crate::effects::{Event, OperationKind, Outcome, Transfer, auth_of, lemma_net_flow_one, net_flow};
use crate::state::{
    BountyEscrowContract, escrow_set, index_seq, lemma_escrow_set, locked_view, push_index, total_remaining,
    with_progress, index_extended};
use crate::types::{Address, Error, Escrow, EscrowStatus, EscrowView, PauseOperation, RefundMode, RefundRecord};

verus! {

broadcast use vstd::std_specs::hash::group_hash_axioms;

/// The error, if any, that an amount policy `(min, max)` gives a lock amount.
pub open spec fn policy_error(policy: Option<(i128, i128)>, amount: i128) -> Option<Error> {
    match policy {
        Some((min_amount, max_amount)) => if amount < min_amount {
            Some(Error::AmountBelowMinimum)
        } else if amount > max_amount {
            Some(Error::AmountAboveMaximum)
        } else {
            None
        },
        None => None,
    }
}

impl BountyEscrowContract {
    /// The error, if any, of a lock of `amount` for `bounty_id` by `depositor`.
    pub open spec fn lock_error(&self, depositor: Address, bounty_id: u64, amount: i128) -> Option<Error> {
        if self.paused(PauseOperation::Lock) {
            Some(Error::FundsPaused)
        } else if !self.initialized() {
            Some(Error::NotInitialized)
        } else if self.has_escrow(bounty_id) && !(self.escrow(bounty_id).status == EscrowStatus::Template
            && self.escrow(bounty_id).depositor == depositor) {
            Some(Error::BountyExists)
        } else if policy_error(self.config.amount_policy, amount) is Some {
            policy_error(self.config.amount_policy, amount)
        } else if amount <= 0 {
            Some(Error::InvalidAmount)
        } else {
            None
        }
    }

    /// The error, if any, of a lock, computed without changing anything.
    pub fn lock_precheck(&self, depositor: Address, bounty_id: u64, amount: i128) -> (r: Option<Error>)
        ensures
            r == self.lock_error(depositor, bounty_id, amount),
    {
        if self.check_paused(PauseOperation::Lock) {
            return Some(Error::FundsPaused);
        }
        if self.config.admin.is_none() {
            return Some(Error::NotInitialized);
        }
        if let Some(e) = self.ledger.escrows.get(&bounty_id) {
            if !(e.status == EscrowStatus::Template && e.depositor == depositor) {
                return Some(Error::BountyExists);
            }
        }
        if let Some((min_amount, max_amount)) = self.config.amount_policy {
            if amount < min_amount {
                return Some(Error::AmountBelowMinimum);
            }
            if amount > max_amount {
                return Some(Error::AmountAboveMaximum);
            }
        }
        if amount <= 0 {
            return Some(Error::InvalidAmount);
        }
        None
    }

    /// Locks `amount` of the escrowed token from `depositor` for `bounty_id`,
    /// to be released or refunded later. A template escrow created by cloning
    /// is filled when its own depositor locks into it; it keeps its deadline.
    /// Applies the rate limit to the depositor and counts the operation.
    pub fn lock_funds(&mut self, now: u64, depositor: Address, bounty_id: u64, amount: i128, deadline: u64) -> (out: Outcome<()>)
        requires
            old(self).wf(),
            old(self).rate_limit_of(depositor, now) is Ok,
            old(self).metrics.operation_count < u64::MAX,
        ensures
            index_extended(*old(self), *final(self)),
            final(self).wf(),
            out.result is Ok <==> old(self).lock_error(depositor, bounty_id, amount) is None,
            out.result matches Err(e) ==> old(self).lock_error(depositor, bounty_id, amount) == Some(e),
            out.result is Err ==> *final(self) == *old(self),
            out.result is Err ==> out.transfers@.len() == 0 && out.events@.len() == 0,
            net_flow(out.transfers@) == total_remaining(final(self).ledger.escrows@) - total_remaining(old(self).ledger.escrows@),
            out.auths@ == (if old(self).paused(PauseOperation::Lock) { Seq::<Address>::empty() } else { seq![depositor] }),
            out.result is Ok ==> {
                let filling = old(self).has_escrow(bounty_id);
                let used_deadline = if filling { old(self).escrow(bounty_id).deadline } else { deadline };
                &&& escrow_set(old(self).ledger.escrows@, final(self).ledger.escrows@, bounty_id,
                    locked_view(depositor, amount, used_deadline))
                &&& filling ==> final(self).ledger.escrow_index == old(self).ledger.escrow_index
                &&& filling ==> final(self).ledger.depositor_index == old(self).ledger.depositor_index
                &&& !filling ==> final(self).ledger.escrow_index@ == old(self).ledger.escrow_index@.push(bounty_id)
                &&& !filling ==> final(self).ledger.depositor_index@.contains_key(depositor.id)
                &&& !filling ==> final(self).ledger.depositor_index@[depositor.id]@
                    == index_seq(old(self).ledger.depositor_index@, depositor.id).push(bounty_id)
                &&& !filling ==> final(self).ledger.depositor_index@.remove(depositor.id)
                    == old(self).ledger.depositor_index@.remove(depositor.id)
                &&& final(self).anti_abuse.states@ == old(self).states_after(depositor, now)
                &&& final(self).metrics.operation_count == old(self).metrics.operation_count + 1
                &&& out.transfers@ == seq![Transfer::Deposit { from: depositor, amount }]
                &&& out.events@ == seq![
                    Event::FundsLocked { bounty_id, amount, depositor, deadline: used_deadline },
                    Event::OperationMetric { operation: OperationKind::Lock, caller: Some(depositor), timestamp: now, success: true },
                ]
            },
            final(self).config == old(self).config,
            final(self).ledger.metadata == old(self).ledger.metadata,
            final(self).ledger.completed_at == old(self).ledger.completed_at,
            final(self).ledger.archived == old(self).ledger.archived,
            final(self).ledger.escrow_locks == old(self).ledger.escrow_locks,
            final(self).approvals == old(self).approvals,
            final(self).tickets == old(self).tickets,
            final(self).capabilities == old(self).capabilities,
            final(self).anti_abuse.config == old(self).anti_abuse.config,
            final(self).anti_abuse.admin == old(self).anti_abuse.admin,
            final(self).anti_abuse.whitelist == old(self).anti_abuse.whitelist,
            final(self).metrics.user_count == old(self).metrics.user_count,
            final(self).metrics.error_count == old(self).metrics.error_count,
            final(self).metrics.performance == old(self).metrics.performance,
    {
        let paused = self.check_paused(PauseOperation::Lock);
        let auths = if paused { Vec::new() } else { auth_of(depositor) };
        if let Some(e) = self.lock_precheck(depositor, bounty_id, amount) {
            return Outcome::fail(e, auths);
        }
        let filling = self.ledger.escrows.contains_key(&bounty_id);
        let used_deadline = if filling {
            match self.ledger.escrows.get(&bounty_id) {
                Some(e) => e.deadline,
                None => deadline,
            }
        } else {
            deadline
        };
        self.check_rate_limit(depositor, now);
        let escrow = Escrow {
            depositor,
            amount,
            remaining_amount: amount,
            status: EscrowStatus::Locked,
            deadline: used_deadline,
            refund_history: Vec::new(),
        };
        self.ledger.escrows.insert(bounty_id, escrow);
        if !filling {
            self.ledger.escrow_index.push(bounty_id);
            push_index(&mut self.ledger.depositor_index, depositor.id, bounty_id);
        }
        let metric = self.metrics.track_operation(now, OperationKind::Lock, Some(depositor), true);
        let mut transfers = Vec::new();
        transfers.push(Transfer::Deposit { from: depositor, amount });
        let mut events = Vec::new();
        events.push(Event::FundsLocked { bounty_id, amount, depositor, deadline: used_deadline });
        events.push(metric);
        proof {
            assert(final(self).ledger.escrows@.remove(bounty_id) =~= old(self).ledger.escrows@.remove(bounty_id));
            lemma_escrow_set(old(self).ledger.escrows@, final(self).ledger.escrows@, bounty_id,
                locked_view(depositor, amount, used_deadline));
            lemma_net_flow_one(Transfer::Deposit { from: depositor, amount });
        }
        Outcome { result: Ok(()), auths, transfers, events }
    }
}

} // verus!

verus! {

impl BountyEscrowContract {
    /// The error, if any, of releasing the escrow of `bounty_id` at `now`.
    pub open spec fn release_error(&self, bounty_id: u64, now: u64) -> Option<Error> {
        if self.paused(PauseOperation::Release) {
            Some(Error::FundsPaused)
        } else if self.owner_locked(bounty_id, now) {
            Some(Error::EscrowLocked)
        } else if self.claim_open(bounty_id) {
            Some(Error::ClaimPending)
        } else if !self.initialized() {
            Some(Error::NotInitialized)
        } else if !self.has_escrow(bounty_id) {
            Some(Error::BountyNotFound)
        } else if self.escrow(bounty_id).status != EscrowStatus::Locked {
            Some(Error::FundsNotLocked)
        } else {
            None
        }
    }

    /// Whether a release of `bounty_id` at `now` gets as far as the admin's
    /// authorization.
    pub open spec fn release_reaches_auth(&self, bounty_id: u64, now: u64) -> bool {
        !self.paused(PauseOperation::Release) && !self.owner_locked(bounty_id, now)
            && !self.claim_open(bounty_id) && self.initialized()
    }

    /// Takes the escrow of `bounty_id` out of the map; it must be there.
    pub(crate) fn take_escrow(&mut self, bounty_id: u64) -> (e: Escrow)
        requires
            old(self).ledger.escrows@.contains_key(bounty_id),
        ensures
            e == old(self).ledger.escrows@[bounty_id],
            final(self).ledger.escrows@ == old(self).ledger.escrows@.remove(bounty_id),
            final(self).config == old(self).config,
            final(self).ledger.escrow_index == old(self).ledger.escrow_index,
            final(self).ledger.depositor_index == old(self).ledger.depositor_index,
            final(self).ledger.metadata == old(self).ledger.metadata,
            final(self).ledger.completed_at == old(self).ledger.completed_at,
            final(self).ledger.archived == old(self).ledger.archived,
            final(self).ledger.escrow_locks == old(self).ledger.escrow_locks,
            final(self).approvals == old(self).approvals,
            final(self).tickets == old(self).tickets,
            final(self).capabilities == old(self).capabilities,
            final(self).anti_abuse == old(self).anti_abuse,
            final(self).metrics == old(self).metrics,
    {
        match self.ledger.escrows.remove(&bounty_id) {
            Some(e) => e,
            None => {
                proof {
                    assert(false);
                }
                Escrow {
                    depositor: Address { id: 0 },
                    amount: 0,
                    remaining_amount: 0,
                    status: EscrowStatus::Locked,
                    deadline: 0,
                    refund_history: Vec::new(),
                }
            },
        }
    }

    /// Releases what remains of the escrow of `bounty_id` to `contributor`
    /// (admin only): the whole locked amount, less what partial releases
    /// already paid. The escrow becomes `Released` with nothing remaining,
    /// and its completion time is recorded. Counts the operation.
    pub fn release_funds(&mut self, now: u64, bounty_id: u64, contributor: Address) -> (out: Outcome<()>)
        requires
            old(self).wf(),
            old(self).metrics.operation_count < u64::MAX,
        ensures
            index_extended(*old(self), *final(self)),
            final(self).wf(),
            out.result is Ok <==> old(self).release_error(bounty_id, now) is None,
            out.result matches Err(e) ==> old(self).release_error(bounty_id, now) == Some(e),
            out.result is Err ==> *final(self) == *old(self),
            out.result is Err ==> out.transfers@.len() == 0 && out.events@.len() == 0,
            net_flow(out.transfers@) == total_remaining(final(self).ledger.escrows@) - total_remaining(old(self).ledger.escrows@),
            out.auths@ == (if old(self).release_reaches_auth(bounty_id, now) {
                seq![old(self).config.admin->0]
            } else {
                Seq::<Address>::empty()
            }),
            out.result is Ok ==> {
                let e = old(self).escrow(bounty_id);
                &&& escrow_set(old(self).ledger.escrows@, final(self).ledger.escrows@, bounty_id,
                    with_progress(e@, 0, EscrowStatus::Released))
                &&& final(self).ledger.completed_at@ == old(self).ledger.completed_at@.insert(bounty_id, now)
                &&& final(self).approvals.refund_approvals == old(self).approvals.refund_approvals
                &&& final(self).metrics.operation_count == old(self).metrics.operation_count + 1
                &&& out.transfers@ == seq![Transfer::Payout { to: contributor, amount: e.remaining_amount }]
                &&& out.events@ == seq![
                    Event::FundsReleased { bounty_id, amount: e.remaining_amount, recipient: contributor, timestamp: now },
                    Event::OperationMetric { operation: OperationKind::Release, caller: Some(contributor), timestamp: now, success: true },
                ]
            },
            final(self).same_outside_settlement(old(self)),
    {
        if self.check_paused(PauseOperation::Release) {
            return Outcome::fail_early(Error::FundsPaused);
        }
        if self.is_escrow_locked(bounty_id, now) {
            return Outcome::fail_early(Error::EscrowLocked);
        }
        if self.has_open_claim(bounty_id) {
            return Outcome::fail_early(Error::ClaimPending);
        }
        let admin = match self.config.admin {
            Some(a) => a,
            None => {
                return Outcome::fail_early(Error::NotInitialized);
            },
        };
        let auths = auth_of(admin);
        match self.ledger.escrows.get(&bounty_id) {
            None => {
                return Outcome::fail(Error::BountyNotFound, auths);
            },
            Some(e) => {
                if e.status != EscrowStatus::Locked {
                    return Outcome::fail(Error::FundsNotLocked, auths);
                }
            },
        }
        let mut escrow = self.take_escrow(bounty_id);
        let release_amount = escrow.remaining_amount;
        escrow.status = EscrowStatus::Released;
        escrow.remaining_amount = 0;
        self.ledger.escrows.insert(bounty_id, escrow);
        self.ledger.completed_at.insert(bounty_id, now);
        let metric = self.metrics.track_operation(now, OperationKind::Release, Some(contributor), true);
        let mut transfers = Vec::new();
        transfers.push(Transfer::Payout { to: contributor, amount: release_amount });
        let mut events = Vec::new();
        events.push(Event::FundsReleased { bounty_id, amount: release_amount, recipient: contributor, timestamp: now });
        events.push(metric);
        proof {
            assert(final(self).ledger.escrows@.remove(bounty_id) =~= old(self).ledger.escrows@.remove(bounty_id));
            lemma_escrow_set(old(self).ledger.escrows@, final(self).ledger.escrows@, bounty_id,
                with_progress(old(self).escrow(bounty_id)@, 0, EscrowStatus::Released));
            lemma_net_flow_one(Transfer::Payout { to: contributor, amount: release_amount });
        }
        Outcome { result: Ok(()), auths, transfers, events }
    }
}

impl BountyEscrowContract {
    /// The error, if any, of paying `payout_amount` of the escrow of
    /// `bounty_id` to a contributor at `now`.
    pub open spec fn partial_release_error(&self, bounty_id: u64, payout_amount: i128, now: u64) -> Option<Error> {
        if !self.initialized() {
            Some(Error::NotInitialized)
        } else if self.owner_locked(bounty_id, now) {
            Some(Error::EscrowLocked)
        } else if !self.has_escrow(bounty_id) {
            Some(Error::BountyNotFound)
        } else if self.escrow(bounty_id).status != EscrowStatus::Locked {
            Some(Error::FundsNotLocked)
        } else if payout_amount <= 0 {
            Some(Error::InvalidAmount)
        } else if payout_amount > self.escrow(bounty_id).remaining_amount {
            Some(Error::InsufficientFunds)
        } else {
            None
        }
    }

    /// Pays `payout_amount` of the escrow of `bounty_id` to `contributor`
    /// (admin only). The remaining amount drops by exactly the payout; the
    /// escrow stays `Locked` while anything remains and becomes `Released`,
    /// with its completion time recorded, when nothing does. An escrow that
    /// its owner has locked is not paid from.
    pub fn partial_release(&mut self, now: u64, bounty_id: u64, contributor: Address, payout_amount: i128) -> (out: Outcome<()>)
        requires
            old(self).wf(),
        ensures
            index_extended(*old(self), *final(self)),
            final(self).wf(),
            out.result is Ok <==> old(self).partial_release_error(bounty_id, payout_amount, now) is None,
            out.result matches Err(e) ==> old(self).partial_release_error(bounty_id, payout_amount, now) == Some(e),
            out.result is Err ==> *final(self) == *old(self),
            out.result is Err ==> out.transfers@.len() == 0 && out.events@.len() == 0,
            net_flow(out.transfers@) == total_remaining(final(self).ledger.escrows@) - total_remaining(old(self).ledger.escrows@),
            out.auths@ == (if old(self).initialized() {
                seq![old(self).config.admin->0]
            } else {
                Seq::<Address>::empty()
            }),
            out.result is Ok ==> {
                let e = old(self).escrow(bounty_id);
                let left = e.remaining_amount - payout_amount;
                let status = if left == 0 { EscrowStatus::Released } else { EscrowStatus::Locked };
                &&& escrow_set(old(self).ledger.escrows@, final(self).ledger.escrows@, bounty_id,
                    with_progress(e@, left as i128, status))
                &&& final(self).ledger.completed_at@ == (if left == 0 {
                    old(self).ledger.completed_at@.insert(bounty_id, now)
                } else {
                    old(self).ledger.completed_at@
                })
                &&& out.transfers@ == seq![Transfer::Payout { to: contributor, amount: payout_amount }]
                &&& out.events@ == seq![
                    Event::FundsReleased { bounty_id, amount: payout_amount, recipient: contributor, timestamp: now },
                ]
            },
            final(self).approvals.refund_approvals == old(self).approvals.refund_approvals,
            final(self).metrics.operation_count == old(self).metrics.operation_count,
            final(self).same_outside_settlement(old(self)),
    {
        let admin = match self.config.admin {
            Some(a) => a,
            None => {
                return Outcome::fail_early(Error::NotInitialized);
            },
        };
        let auths = auth_of(admin);
        if self.is_escrow_locked(bounty_id, now) {
            return Outcome::fail(Error::EscrowLocked, auths);
        }
        match self.ledger.escrows.get(&bounty_id) {
            None => {
                return Outcome::fail(Error::BountyNotFound, auths);
            },
            Some(e) => {
                if e.status != EscrowStatus::Locked {
                    return Outcome::fail(Error::FundsNotLocked, auths);
                }
                if payout_amount <= 0 {
                    return Outcome::fail(Error::InvalidAmount, auths);
                }
                if payout_amount > e.remaining_amount {
                    return Outcome::fail(Error::InsufficientFunds, auths);
                }
            },
        }
        let mut escrow = self.take_escrow(bounty_id);
        escrow.remaining_amount = escrow.remaining_amount - payout_amount;
        if escrow.remaining_amount == 0 {
            escrow.status = EscrowStatus::Released;
            self.ledger.completed_at.insert(bounty_id, now);
        }
        self.ledger.escrows.insert(bounty_id, escrow);
        let mut transfers = Vec::new();
        transfers.push(Transfer::Payout { to: contributor, amount: payout_amount });
        let mut events = Vec::new();
        events.push(Event::FundsReleased { bounty_id, amount: payout_amount, recipient: contributor, timestamp: now });
        proof {
            assert(final(self).ledger.escrows@.remove(bounty_id) =~= old(self).ledger.escrows@.remove(bounty_id));
            let e = old(self).escrow(bounty_id);
            let left = e.remaining_amount - payout_amount;
            lemma_escrow_set(old(self).ledger.escrows@, final(self).ledger.escrows@, bounty_id,
                with_progress(e@, left as i128, if left == 0 { EscrowStatus::Released } else { EscrowStatus::Locked }));
            lemma_net_flow_one(Transfer::Payout { to: contributor, amount: payout_amount });
        }
        Outcome { result: Ok(()), auths, transfers, events }
    }

    /// How a refund of the escrow of `bounty_id` would go: the amount, its
    /// recipient, and whether it counts as full. An admin approval decides
    /// all three; without one the whole remaining amount returns to the
    /// depositor.
    pub open spec fn refund_plan(&self, bounty_id: u64) -> (i128, Address, bool) {
        let e = self.escrow(bounty_id);
        if self.approvals.refund_approvals@.contains_key(bounty_id) {
            let a = self.approvals.refund_approvals@[bounty_id];
            (a.amount, a.recipient, a.mode == RefundMode::Full || a.amount >= e.remaining_amount)
        } else {
            (e.remaining_amount, e.depositor, true)
        }
    }

    /// The error, if any, of refunding the escrow of `bounty_id` at `now`.
    pub open spec fn refund_error(&self, bounty_id: u64, now: u64) -> Option<Error> {
        if self.paused(PauseOperation::Refund) {
            Some(Error::FundsPaused)
        } else if self.owner_locked(bounty_id, now) {
            Some(Error::EscrowLocked)
        } else if !self.has_escrow(bounty_id) {
            Some(Error::BountyNotFound)
        } else if self.escrow(bounty_id).status != EscrowStatus::Locked
            && self.escrow(bounty_id).status != EscrowStatus::PartiallyRefunded {
            Some(Error::FundsNotLocked)
        } else if self.claim_open(bounty_id) {
            Some(Error::ClaimPending)
        } else if now < self.escrow(bounty_id).deadline && !self.approvals.refund_approvals@.contains_key(bounty_id) {
            Some(Error::DeadlineNotPassed)
        } else if self.refund_plan(bounty_id).0 <= 0
            || self.refund_plan(bounty_id).0 > self.escrow(bounty_id).remaining_amount {
            Some(Error::InvalidAmount)
        } else {
            None
        }
    }

    /// The escrow value after a refund as planned at `now`.
    pub open spec fn refunded_view(&self, bounty_id: u64, now: u64) -> EscrowView {
        let e = self.escrow(bounty_id)@;
        let (amount, to, full) = self.refund_plan(bounty_id);
        let left = e.remaining_amount - amount;
        EscrowView {
            remaining_amount: left as i128,
            status: if full || left == 0 { EscrowStatus::Refunded } else { EscrowStatus::PartiallyRefunded },
            refund_history: e.refund_history.push(RefundRecord {
                amount,
                recipient: to,
                timestamp: now,
                mode: if full { RefundMode::Full } else { RefundMode::Partial },
            }),
            ..e
        }
    }

    /// Refunds the escrow of `bounty_id`: after its deadline the remaining
    /// amount returns to the depositor; with an admin approval, possibly
    /// earlier, the approved amount goes to the approved recipient and the
    /// approval is used up. The refund is recorded in the escrow's history,
    /// and the escrow becomes `Refunded` (completion time recorded) or
    /// `PartiallyRefunded`. Demands no authorization. Counts the operation.
    pub fn refund(&mut self, now: u64, bounty_id: u64) -> (out: Outcome<()>)
        requires
            old(self).wf(),
            old(self).metrics.operation_count < u64::MAX,
        ensures
            index_extended(*old(self), *final(self)),
            final(self).wf(),
            out.result is Ok <==> old(self).refund_error(bounty_id, now) is None,
            out.result matches Err(e) ==> old(self).refund_error(bounty_id, now) == Some(e),
            out.result is Err ==> *final(self) == *old(self),
            out.result is Err ==> out.transfers@.len() == 0 && out.events@.len() == 0,
            net_flow(out.transfers@) == total_remaining(final(self).ledger.escrows@) - total_remaining(old(self).ledger.escrows@),
            out.auths@.len() == 0,
            out.result is Ok ==> {
                let (amount, to, full) = old(self).refund_plan(bounty_id);
                let v = old(self).refunded_view(bounty_id, now);
                &&& escrow_set(old(self).ledger.escrows@, final(self).ledger.escrows@, bounty_id, v)
                &&& final(self).ledger.completed_at@ == (if v.status == EscrowStatus::Refunded {
                    old(self).ledger.completed_at@.insert(bounty_id, now)
                } else {
                    old(self).ledger.completed_at@
                })
                &&& final(self).approvals.refund_approvals@ == old(self).approvals.refund_approvals@.remove(bounty_id)
                &&& final(self).metrics.operation_count == old(self).metrics.operation_count + 1
                &&& out.transfers@ == seq![Transfer::Payout { to, amount }]
                &&& out.events@ == seq![
                    Event::FundsRefunded { bounty_id, amount, refund_to: to, timestamp: now },
                    Event::OperationMetric { operation: OperationKind::Refund, caller: None, timestamp: now, success: true },
                ]
            },
            final(self).same_outside_settlement(old(self)),
    {
        if self.check_paused(PauseOperation::Refund) {
            return Outcome::fail_early(Error::FundsPaused);
        }
        if self.is_escrow_locked(bounty_id, now) {
            return Outcome::fail_early(Error::EscrowLocked);
        }
        let (amount, to, full) = match self.ledger.escrows.get(&bounty_id) {
            None => {
                return Outcome::fail_early(Error::BountyNotFound);
            },
            Some(e) => {
                if e.status != EscrowStatus::Locked && e.status != EscrowStatus::PartiallyRefunded {
                    return Outcome::fail_early(Error::FundsNotLocked);
                }
                if self.has_open_claim(bounty_id) {
                    return Outcome::fail_early(Error::ClaimPending);
                }
                let approval = self.approvals.refund_approvals.get(&bounty_id);
                if now < e.deadline && approval.is_none() {
                    return Outcome::fail_early(Error::DeadlineNotPassed);
                }
                let plan = match approval {
                    Some(a) => (a.amount, a.recipient, a.mode == RefundMode::Full || a.amount >= e.remaining_amount),
                    None => (e.remaining_amount, e.depositor, true),
                };
                if plan.0 <= 0 || plan.0 > e.remaining_amount {
                    return Outcome::fail_early(Error::InvalidAmount);
                }
                plan
            },
        };
        let mut escrow = self.take_escrow(bounty_id);
        escrow.remaining_amount = escrow.remaining_amount - amount;
        if full || escrow.remaining_amount == 0 {
            escrow.status = EscrowStatus::Refunded;
        } else {
            escrow.status = EscrowStatus::PartiallyRefunded;
        }
        escrow.refund_history.push(RefundRecord {
            amount,
            recipient: to,
            timestamp: now,
            mode: if full { RefundMode::Full } else { RefundMode::Partial },
        });
        let refunded = escrow.status == EscrowStatus::Refunded;
        self.ledger.escrows.insert(bounty_id, escrow);
        if refunded {
            self.ledger.completed_at.insert(bounty_id, now);
        }
        self.approvals.refund_approvals.remove(&bounty_id);
        let metric = self.metrics.track_operation(now, OperationKind::Refund, None, true);
        let mut transfers = Vec::new();
        transfers.push(Transfer::Payout { to, amount });
        let mut events = Vec::new();
        events.push(Event::FundsRefunded { bounty_id, amount, refund_to: to, timestamp: now });
        events.push(metric);
        proof {
            assert(final(self).ledger.escrows@.remove(bounty_id) =~= old(self).ledger.escrows@.remove(bounty_id));
            lemma_escrow_set(old(self).ledger.escrows@, final(self).ledger.escrows@, bounty_id,
                old(self).refunded_view(bounty_id, now));
            lemma_net_flow_one(Transfer::Payout { to, amount });
        }
        Outcome { result: Ok(()), auths: Vec::new(), transfers, events }
    }
}

} // verus!
