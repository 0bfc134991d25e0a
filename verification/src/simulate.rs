//! Dry runs of lock, release and refund: the same checks, no change of
//! state, and a report of what would happen.

use vstd::prelude::*;
use crate::lifecycle::policy_error;
use crate::state::BountyEscrowContract;
use crate::types::{Address, Error, EscrowStatus, PauseOperation, SimulationResult, error_code};

verus! {

broadcast use vstd::std_specs::hash::group_hash_axioms;

/// The report of a dry run that fails with `e` before looking at an escrow.
pub open spec fn sim_failure(e: Error) -> SimulationResult {
    SimulationResult {
        success: false,
        error_code: error_code(e),
        amount: 0,
        resulting_status: EscrowStatus::Locked,
        remaining_amount: 0,
    }
}

/// The report of a dry run that fails with `e` on an escrow in `status`
/// with `remaining` left.
pub open spec fn sim_failure_at(e: Error, status: EscrowStatus, remaining: i128) -> SimulationResult {
    SimulationResult { success: false, error_code: error_code(e), amount: 0, resulting_status: status, remaining_amount: remaining }
}

/// The report of a dry run that succeeds.
pub open spec fn sim_success(amount: i128, status: EscrowStatus, remaining: i128) -> SimulationResult {
    SimulationResult { success: true, error_code: 0, amount, resulting_status: status, remaining_amount: remaining }
}

fn failure(e: Error) -> (r: SimulationResult)
    ensures
        r == sim_failure(e),
{
    SimulationResult { success: false, error_code: e.code(), amount: 0, resulting_status: EscrowStatus::Locked, remaining_amount: 0 }
}

fn failure_at(e: Error, status: EscrowStatus, remaining: i128) -> (r: SimulationResult)
    ensures
        r == sim_failure_at(e, status, remaining),
{
    SimulationResult { success: false, error_code: e.code(), amount: 0, resulting_status: status, remaining_amount: remaining }
}

impl BountyEscrowContract {
    /// The error, if any, a dry run of a lock reports. A template escrow of
    /// the same depositor counts as free to fill, as it does for a lock.
    pub open spec fn simulate_lock_error(&self, now: u64, depositor: Address, bounty_id: u64, amount: i128, deadline: u64, depositor_balance: i128) -> Option<Error> {
        if self.paused(PauseOperation::Lock) {
            Some(Error::FundsPaused)
        } else if !self.initialized() {
            Some(Error::NotInitialized)
        } else if self.has_escrow(bounty_id) && !(self.escrow(bounty_id).status == EscrowStatus::Template
            && self.escrow(bounty_id).depositor == depositor) {
            Some(Error::BountyExists)
        } else if amount <= 0 {
            Some(Error::InvalidAmount)
        } else if deadline <= now {
            Some(Error::InvalidDeadline)
        } else if policy_error(self.config.amount_policy, amount) is Some {
            policy_error(self.config.amount_policy, amount)
        } else if depositor_balance < amount {
            Some(Error::InsufficientFunds)
        } else {
            None
        }
    }

    /// Dry run of a lock of `amount` for `bounty_id` by a depositor whose
    /// token balance is `depositor_balance`; also refuses a zero or negative
    /// amount, a deadline not after `now`, and an amount above the balance.
    pub fn simulate_lock(&self, now: u64, depositor: Address, bounty_id: u64, amount: i128, deadline: u64, depositor_balance: i128) -> (r: SimulationResult)
        ensures
            r == (match self.simulate_lock_error(now, depositor, bounty_id, amount, deadline, depositor_balance) {
                Some(e) => sim_failure(e),
                None => sim_success(amount, EscrowStatus::Locked, amount),
            }),
    {
        if self.check_paused(PauseOperation::Lock) {
            return failure(Error::FundsPaused);
        }
        if self.config.admin.is_none() {
            return failure(Error::NotInitialized);
        }
        if let Some(e) = self.ledger.escrows.get(&bounty_id) {
            if !(e.status == EscrowStatus::Template && e.depositor == depositor) {
                return failure(Error::BountyExists);
            }
        }
        if amount <= 0 {
            return failure(Error::InvalidAmount);
        }
        if deadline <= now {
            return failure(Error::InvalidDeadline);
        }
        if let Some((min_amount, max_amount)) = self.config.amount_policy {
            if amount < min_amount {
                return failure(Error::AmountBelowMinimum);
            }
            if amount > max_amount {
                return failure(Error::AmountAboveMaximum);
            }
        }
        if depositor_balance < amount {
            return failure(Error::InsufficientFunds);
        }
        SimulationResult { success: true, error_code: 0, amount, resulting_status: EscrowStatus::Locked, remaining_amount: amount }
    }

    /// What a dry run of a release of `bounty_id` reports.
    pub open spec fn simulate_release_spec(&self, bounty_id: u64) -> SimulationResult {
        if self.paused(PauseOperation::Release) {
            sim_failure(Error::FundsPaused)
        } else if !self.initialized() {
            sim_failure(Error::NotInitialized)
        } else if !self.has_escrow(bounty_id) {
            sim_failure(Error::BountyNotFound)
        } else if self.escrow(bounty_id).status != EscrowStatus::Locked {
            sim_failure_at(Error::FundsNotLocked, self.escrow(bounty_id).status, self.escrow(bounty_id).remaining_amount)
        } else {
            sim_success(self.escrow(bounty_id).remaining_amount, EscrowStatus::Released, 0)
        }
    }

    /// Dry run of a release of the escrow of `bounty_id`.
    pub fn simulate_release(&self, bounty_id: u64, contributor: Address) -> (r: SimulationResult)
        ensures
            r == self.simulate_release_spec(bounty_id),
    {
        let _ = contributor;
        if self.check_paused(PauseOperation::Release) {
            return failure(Error::FundsPaused);
        }
        if self.config.admin.is_none() {
            return failure(Error::NotInitialized);
        }
        match self.ledger.escrows.get(&bounty_id) {
            None => failure(Error::BountyNotFound),
            Some(e) => {
                if e.status != EscrowStatus::Locked {
                    failure_at(Error::FundsNotLocked, e.status, e.remaining_amount)
                } else {
                    SimulationResult {
                        success: true,
                        error_code: 0,
                        amount: e.remaining_amount,
                        resulting_status: EscrowStatus::Released,
                        remaining_amount: 0,
                    }
                }
            },
        }
    }

    /// What a dry run of a refund of `bounty_id` at `now` reports.
    pub open spec fn simulate_refund_spec(&self, now: u64, bounty_id: u64) -> SimulationResult {
        if self.paused(PauseOperation::Refund) {
            sim_failure(Error::FundsPaused)
        } else if !self.has_escrow(bounty_id) {
            sim_failure(Error::BountyNotFound)
        } else {
            let e = self.escrow(bounty_id);
            if e.status != EscrowStatus::Locked && e.status != EscrowStatus::PartiallyRefunded {
                sim_failure_at(Error::FundsNotLocked, e.status, e.remaining_amount)
            } else if self.claim_open(bounty_id) {
                sim_failure_at(Error::ClaimPending, e.status, e.remaining_amount)
            } else if now < e.deadline && !self.approvals.refund_approvals@.contains_key(bounty_id) {
                sim_failure_at(Error::DeadlineNotPassed, e.status, e.remaining_amount)
            } else {
                let (amount, _to, full) = self.refund_plan(bounty_id);
                if amount <= 0 || amount > e.remaining_amount {
                    sim_failure_at(Error::InvalidAmount, e.status, e.remaining_amount)
                } else {
                    let left = e.remaining_amount - amount;
                    sim_success(
                        amount,
                        if full || left == 0 { EscrowStatus::Refunded } else { EscrowStatus::PartiallyRefunded },
                        left as i128,
                    )
                }
            }
        }
    }

    /// Dry run of a refund of the escrow of `bounty_id` at `now`.
    pub fn simulate_refund(&self, now: u64, bounty_id: u64) -> (r: SimulationResult)
        requires
            self.wf(),
        ensures
            r == self.simulate_refund_spec(now, bounty_id),
    {
        if self.check_paused(PauseOperation::Refund) {
            return failure(Error::FundsPaused);
        }
        let e = match self.ledger.escrows.get(&bounty_id) {
            None => {
                return failure(Error::BountyNotFound);
            },
            Some(e) => e,
        };
        if e.status != EscrowStatus::Locked && e.status != EscrowStatus::PartiallyRefunded {
            return failure_at(Error::FundsNotLocked, e.status, e.remaining_amount);
        }
        if self.has_open_claim(bounty_id) {
            return failure_at(Error::ClaimPending, e.status, e.remaining_amount);
        }
        let approval = self.approvals.refund_approvals.get(&bounty_id);
        if now < e.deadline && approval.is_none() {
            return failure_at(Error::DeadlineNotPassed, e.status, e.remaining_amount);
        }
        let (amount, full) = match approval {
            Some(a) => (a.amount, a.mode == crate::types::RefundMode::Full || a.amount >= e.remaining_amount),
            None => (e.remaining_amount, true),
        };
        if amount <= 0 || amount > e.remaining_amount {
            return failure_at(Error::InvalidAmount, e.status, e.remaining_amount);
        }
        let left = e.remaining_amount - amount;
        SimulationResult {
            success: true,
            error_code: 0,
            amount,
            resulting_status: if full || left == 0 { EscrowStatus::Refunded } else { EscrowStatus::PartiallyRefunded },
            remaining_amount: left,
        }
    }
}

} // verus!
