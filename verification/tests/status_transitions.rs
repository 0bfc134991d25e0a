#![allow(dead_code, unused_imports)]

use std::collections::HashMap;
use bounty_escrow::effects::{Event, Outcome, Transfer};
use bounty_escrow::state::BountyEscrowContract;
use bounty_escrow::types::{Address, Error, Escrow, EscrowStatus, LockFundsItem, ReleaseFundsItem};

/// The strkey of the token contract used in these tests.
const STATUS_TOKEN_STRKEY: &[u8] = b"CAS3J7GYLGXMF6TDJBBYYSE3HQ6BBSMLNUQ34T6TZMYMW2EVH34XOWMA";

/// The escrow contract's own account.
const STATUS_ESCROW_ACCOUNT: Address = Address { id: 0 };

/// An escrow contract together with the token balances and the ledger
/// clock it runs against, and what it emitted.
struct StatusWorld {
    c: BountyEscrowContract,
    now: u64,
    next_account: u64,
    balances: HashMap<u64, i128>,
    events: Vec<Event>,
    auths: Vec<Address>,
    /// The accounts that sign; `None` when every authorization is granted.
    signers: Option<Vec<Address>>,
    admin: Address,
    token: Address,
    depositor: Address,
    contributor: Address,
}

impl StatusWorld {
    /// An initialized escrow; the depositor holds 1 000 000 tokens.
    fn new() -> StatusWorld {
        StatusWorld::with_balance(1_000_000)
    }

    /// An initialized escrow whose depositor holds `depositor_balance`.
    fn with_balance(depositor_balance: i128) -> StatusWorld {
        let mut w = StatusWorld::bare();
        let admin = w.admin;
        let token = w.token;
        let out = w.c.init(w.now, admin, token, STATUS_TOKEN_STRKEY);
        w.settle(out).unwrap();
        let depositor = w.depositor;
        w.mint(depositor, depositor_balance);
        w
    }

    /// An escrow that was never initialized.
    fn bare() -> StatusWorld {
        let mut w = StatusWorld {
            c: BountyEscrowContract::new(),
            now: 0,
            next_account: 1,
            balances: HashMap::new(),
            events: Vec::new(),
            auths: Vec::new(),
            signers: None,
            admin: STATUS_ESCROW_ACCOUNT,
            token: STATUS_ESCROW_ACCOUNT,
            depositor: STATUS_ESCROW_ACCOUNT,
            contributor: STATUS_ESCROW_ACCOUNT,
        };
        w.admin = w.generate();
        w.token = w.generate();
        w.depositor = w.generate();
        w.contributor = w.generate();
        w
    }

    fn generate(&mut self) -> Address {
        let a = Address { id: self.next_account };
        self.next_account += 1;
        a
    }

    fn mint(&mut self, to: Address, amount: i128) {
        *self.balances.entry(to.id).or_insert(0) += amount;
    }

    fn balance(&self, who: Address) -> i128 {
        *self.balances.get(&who.id).unwrap_or(&0)
    }

    fn escrow_balance(&self) -> i128 {
        self.balance(STATUS_ESCROW_ACCOUNT)
    }

    fn move_tokens(&mut self, from: Address, to: Address, amount: i128) {
        assert!(amount >= 0, "negative amount is not allowed");
        assert!(self.balance(from) >= amount, "balance is not sufficient");
        *self.balances.entry(from.id).or_insert(0) -= amount;
        *self.balances.entry(to.id).or_insert(0) += amount;
    }

    /// Performs what an entrypoint asked for when it succeeded.
    fn settle<T>(&mut self, out: Outcome<T>) -> Result<T, Error> {
        if let Some(signers) = &self.signers {
            for a in out.auths.iter() {
                assert!(signers.contains(a), "Error(Auth, InvalidAction)");
            }
        }
        self.auths.extend(out.auths.iter().copied());
        match out.result {
            Ok(v) => {
                for t in out.transfers.iter() {
                    match *t {
                        Transfer::Deposit { from, amount } => self.move_tokens(from, STATUS_ESCROW_ACCOUNT, amount),
                        Transfer::Payout { to, amount } => self.move_tokens(STATUS_ESCROW_ACCOUNT, to, amount),
                    }
                }
                self.events.extend(out.events.into_iter());
                Ok(v)
            }
            Err(e) => Err(e),
        }
    }

    fn lock(&mut self, depositor: Address, bounty_id: u64, amount: i128, deadline: u64) -> Result<(), Error> {
        if self.c.rate_limit_decision(depositor, self.now).is_err() {
            panic!("Operation in cooldown period");
        }
        let out = self.c.lock_funds(self.now, depositor, bounty_id, amount, deadline);
        self.settle(out)
    }

    fn release(&mut self, bounty_id: u64, contributor: Address) -> Result<(), Error> {
        let out = self.c.release_funds(self.now, bounty_id, contributor);
        self.settle(out)
    }

    fn partial_release(&mut self, bounty_id: u64, contributor: Address, amount: i128) -> Result<(), Error> {
        let out = self.c.partial_release(self.now, bounty_id, contributor, amount);
        self.settle(out)
    }

    fn refund(&mut self, bounty_id: u64) -> Result<(), Error> {
        let out = self.c.refund(self.now, bounty_id);
        self.settle(out)
    }

    fn batch_lock(&mut self, items: Vec<LockFundsItem>) -> Result<u32, Error> {
        let out = self.c.batch_lock_funds(self.now, &items);
        self.settle(out)
    }

    fn batch_release(&mut self, items: Vec<ReleaseFundsItem>) -> Result<u32, Error> {
        let out = self.c.batch_release_funds(self.now, &items);
        self.settle(out)
    }

    fn set_paused(&mut self, lock: Option<bool>, release: Option<bool>, refund: Option<bool>) -> Result<(), Error> {
        let out = self.c.set_paused(self.now, lock, release, refund, None);
        self.settle(out)
    }

    fn info(&self, bounty_id: u64) -> Escrow {
        self.c.get_escrow_info(bounty_id).unwrap()
    }

    fn status(&self, bounty_id: u64) -> EscrowStatus {
        self.info(bounty_id).status
    }

    fn get_balance(&self) -> i128 {
        self.c.get_balance(self.escrow_balance()).unwrap()
    }
}

fn status_lock_item(bounty_id: u64, depositor: Address, amount: i128, deadline: u64) -> LockFundsItem {
    LockFundsItem { bounty_id, depositor, amount, deadline }
}

fn status_release_item(bounty_id: u64, contributor: Address) -> ReleaseFundsItem {
    ReleaseFundsItem { bounty_id, contributor }
}

/// Stores an escrow in the given status directly, funding the contract with
/// its amount, as if it had been created earlier.
fn put_escrow_in_state(w: &mut StatusWorld, status: EscrowStatus, bounty_id: u64, amount: i128) {
    let deadline = w.now + 1000;
    let escrow = Escrow {
        depositor: w.depositor,
        amount,
        remaining_amount: amount,
        status,
        deadline,
        refund_history: Vec::new(),
    };
    w.mint(STATUS_ESCROW_ACCOUNT, amount);
    w.c.ledger.escrows.insert(bounty_id, escrow);
}

#[derive(Clone, Copy, Debug)]
enum TransitionAction {
    Lock,
    Release,
    Refund,
}

#[test]
fn test_all_status_transitions() {
    let cases: [(&str, EscrowStatus, TransitionAction, Result<(), Error>); 9] = [
        ("Locked to Locked (Lock)", EscrowStatus::Locked, TransitionAction::Lock, Err(Error::BountyExists)),
        ("Locked to Released (Release)", EscrowStatus::Locked, TransitionAction::Release, Ok(())),
        ("Locked to Refunded (Refund)", EscrowStatus::Locked, TransitionAction::Refund, Ok(())),
        ("Released to Locked (Lock)", EscrowStatus::Released, TransitionAction::Lock, Err(Error::BountyExists)),
        ("Released to Released (Release)", EscrowStatus::Released, TransitionAction::Release, Err(Error::FundsNotLocked)),
        ("Released to Refunded (Refund)", EscrowStatus::Released, TransitionAction::Refund, Err(Error::FundsNotLocked)),
        ("Refunded to Locked (Lock)", EscrowStatus::Refunded, TransitionAction::Lock, Err(Error::BountyExists)),
        ("Refunded to Released (Release)", EscrowStatus::Refunded, TransitionAction::Release, Err(Error::FundsNotLocked)),
        ("Refunded to Refunded (Refund)", EscrowStatus::Refunded, TransitionAction::Refund, Err(Error::FundsNotLocked)),
    ];
    for (label, from, action, expected) in cases {
        let mut w = StatusWorld::new();
        let bounty_id = 99;
        let amount = 1000;
        put_escrow_in_state(&mut w, from, bounty_id, amount);
        if let TransitionAction::Refund = action {
            w.now = w.now.checked_add(2000).unwrap();
        }
        let depositor = w.depositor;
        let contributor = w.contributor;
        let result = match action {
            TransitionAction::Lock => {
                let deadline = w.now.checked_add(1000).unwrap();
                w.lock(depositor, bounty_id, amount, deadline)
            }
            TransitionAction::Release => w.release(bounty_id, contributor),
            TransitionAction::Refund => w.refund(bounty_id),
        };
        match expected {
            Ok(()) => assert!(result.is_ok(), "Transition '{}' failed: expected Ok but got {:?}", label, result),
            Err(e) => {
                assert!(result.is_err(), "Transition '{}' failed: expected Err but got Ok", label);
                assert_eq!(result.unwrap_err(), e, "Transition '{}' failed: mismatched error variant", label);
            }
        }
    }
}

#[test]
fn test_locked_to_released_succeeds() {
    let mut w = StatusWorld::new();
    put_escrow_in_state(&mut w, EscrowStatus::Locked, 1, 1000);
    let contributor = w.contributor;
    w.release(1, contributor).unwrap();
    assert_eq!(w.status(1), EscrowStatus::Released, "Escrow status did not transition to Released");
}

#[test]
fn test_locked_to_refunded_succeeds() {
    let mut w = StatusWorld::new();
    put_escrow_in_state(&mut w, EscrowStatus::Locked, 1, 1000);
    w.now = w.now.checked_add(2000).unwrap();
    w.refund(1).unwrap();
    assert_eq!(w.status(1), EscrowStatus::Refunded, "Escrow status did not transition to Refunded");
}

#[test]
fn test_released_to_locked_fails() {
    let mut w = StatusWorld::new();
    put_escrow_in_state(&mut w, EscrowStatus::Released, 1, 1000);
    let deadline = w.now + 1000;
    let depositor = w.depositor;
    let result = w.lock(depositor, 1, 1000, deadline);
    assert!(result.is_err(), "Expected locking an already released bounty to fail");
    assert_eq!(result.unwrap_err(), Error::BountyExists);
    assert_eq!(w.status(1), EscrowStatus::Released, "Escrow status mutated after failed transition");
}

#[test]
fn test_refunded_to_released_fails() {
    let mut w = StatusWorld::new();
    put_escrow_in_state(&mut w, EscrowStatus::Refunded, 1, 1000);
    let contributor = w.contributor;
    let result = w.release(1, contributor);
    assert!(result.is_err(), "Expected releasing a refunded bounty to fail");
    assert_eq!(result.unwrap_err(), Error::FundsNotLocked);
    assert_eq!(w.status(1), EscrowStatus::Refunded, "Escrow status mutated after failed transition");
}

#[test]
fn test_transition_from_uninitialized_state() {
    let mut w = StatusWorld::new();
    let contributor = w.contributor;
    let result = w.release(999, contributor);
    assert!(result.is_err(), "Expected release_funds on nonexistent to fail");
    assert_eq!(result.unwrap_err(), Error::BountyNotFound);
}

#[test]
fn test_idempotent_transition_attempt() {
    let mut w = StatusWorld::new();
    put_escrow_in_state(&mut w, EscrowStatus::Locked, 1, 1000);
    let contributor = w.contributor;
    w.release(1, contributor).unwrap();
    let result = w.release(1, contributor);
    assert!(result.is_err(), "Expected idempotent transition attempt to fail");
    assert_eq!(result.unwrap_err(), Error::FundsNotLocked);
}

#[test]
fn test_status_field_unchanged_on_error() {
    let mut w = StatusWorld::new();
    put_escrow_in_state(&mut w, EscrowStatus::Released, 1, 1000);
    w.now += 2000;
    let result = w.refund(1);
    assert!(result.is_err(), "Expected refund on Released state to fail");
    assert_eq!(w.status(1), EscrowStatus::Released, "Escrow status should remain strictly unchanged");
}
