#![allow(dead_code, unused_imports)]

use std::collections::HashMap;
use bounty_escrow::effects::{Event, Outcome, Transfer};
use bounty_escrow::state::BountyEscrowContract;
use bounty_escrow::types::{Address, Error, Escrow, EscrowStatus, LockFundsItem, ReleaseFundsItem};

/// The strkey of the token contract used in these tests.
const E2E_TOKEN_STRKEY: &[u8] = b"CAS3J7GYLGXMF6TDJBBYYSE3HQ6BBSMLNUQ34T6TZMYMW2EVH34XOWMA";

/// The escrow contract's own account.
const E2E_ESCROW_ACCOUNT: Address = Address { id: 0 };

/// An escrow contract together with the token balances and the ledger
/// clock it runs against, and what it emitted.
struct E2eWorld {
    c: BountyEscrowContract,
    now: u64,
    next_account: u64,
    balances: HashMap<u64, i128>,
    events: Vec<Event>,
    auths: Vec<Address>,
    /// The accounts that sign; `None` when every authorization is granted.
    signers: Option<Vec<Address>>,
    admin: Address,
    token: Address,
    depositor: Address,
    contributor: Address,
}

impl E2eWorld {
    /// An initialized escrow; the depositor holds 1 000 000 tokens.
    fn new() -> E2eWorld {
        E2eWorld::with_balance(1_000_000)
    }

    /// An initialized escrow whose depositor holds `depositor_balance`.
    fn with_balance(depositor_balance: i128) -> E2eWorld {
        let mut w = E2eWorld::bare();
        let admin = w.admin;
        let token = w.token;
        let out = w.c.init(w.now, admin, token, E2E_TOKEN_STRKEY);
        w.settle(out).unwrap();
        let depositor = w.depositor;
        w.mint(depositor, depositor_balance);
        w
    }

    /// An escrow that was never initialized.
    fn bare() -> E2eWorld {
        let mut w = E2eWorld {
            c: BountyEscrowContract::new(),
            now: 0,
            next_account: 1,
            balances: HashMap::new(),
            events: Vec::new(),
            auths: Vec::new(),
            signers: None,
            admin: E2E_ESCROW_ACCOUNT,
            token: E2E_ESCROW_ACCOUNT,
            depositor: E2E_ESCROW_ACCOUNT,
            contributor: E2E_ESCROW_ACCOUNT,
        };
        w.admin = w.generate();
        w.token = w.generate();
        w.depositor = w.generate();
        w.contributor = w.generate();
        w
    }

    fn generate(&mut self) -> Address {
        let a = Address { id: self.next_account };
        self.next_account += 1;
        a
    }

    fn mint(&mut self, to: Address, amount: i128) {
        *self.balances.entry(to.id).or_insert(0) += amount;
    }

    fn balance(&self, who: Address) -> i128 {
        *self.balances.get(&who.id).unwrap_or(&0)
    }

    fn escrow_balance(&self) -> i128 {
        self.balance(E2E_ESCROW_ACCOUNT)
    }

    fn move_tokens(&mut self, from: Address, to: Address, amount: i128) {
        assert!(amount >= 0, "negative amount is not allowed");
        assert!(self.balance(from) >= amount, "balance is not sufficient");
        *self.balances.entry(from.id).or_insert(0) -= amount;
        *self.balances.entry(to.id).or_insert(0) += amount;
    }

    /// Performs what an entrypoint asked for when it succeeded.
    fn settle<T>(&mut self, out: Outcome<T>) -> Result<T, Error> {
        if let Some(signers) = &self.signers {
            for a in out.auths.iter() {
                assert!(signers.contains(a), "Error(Auth, InvalidAction)");
            }
        }
        self.auths.extend(out.auths.iter().copied());
        match out.result {
            Ok(v) => {
                for t in out.transfers.iter() {
                    match *t {
                        Transfer::Deposit { from, amount } => self.move_tokens(from, E2E_ESCROW_ACCOUNT, amount),
                        Transfer::Payout { to, amount } => self.move_tokens(E2E_ESCROW_ACCOUNT, to, amount),
                    }
                }
                self.events.extend(out.events.into_iter());
                Ok(v)
            }
            Err(e) => Err(e),
        }
    }

    fn lock(&mut self, depositor: Address, bounty_id: u64, amount: i128, deadline: u64) -> Result<(), Error> {
        if self.c.rate_limit_decision(depositor, self.now).is_err() {
            panic!("Operation in cooldown period");
        }
        let out = self.c.lock_funds(self.now, depositor, bounty_id, amount, deadline);
        self.settle(out)
    }

    fn release(&mut self, bounty_id: u64, contributor: Address) -> Result<(), Error> {
        let out = self.c.release_funds(self.now, bounty_id, contributor);
        self.settle(out)
    }

    fn partial_release(&mut self, bounty_id: u64, contributor: Address, amount: i128) -> Result<(), Error> {
        let out = self.c.partial_release(self.now, bounty_id, contributor, amount);
        self.settle(out)
    }

    fn refund(&mut self, bounty_id: u64) -> Result<(), Error> {
        let out = self.c.refund(self.now, bounty_id);
        self.settle(out)
    }

    fn batch_lock(&mut self, items: Vec<LockFundsItem>) -> Result<u32, Error> {
        let out = self.c.batch_lock_funds(self.now, &items);
        self.settle(out)
    }

    fn batch_release(&mut self, items: Vec<ReleaseFundsItem>) -> Result<u32, Error> {
        let out = self.c.batch_release_funds(self.now, &items);
        self.settle(out)
    }

    fn set_paused(&mut self, lock: Option<bool>, release: Option<bool>, refund: Option<bool>) -> Result<(), Error> {
        let out = self.c.set_paused(self.now, lock, release, refund, None);
        self.settle(out)
    }

    fn info(&self, bounty_id: u64) -> Escrow {
        self.c.get_escrow_info(bounty_id).unwrap()
    }

    fn status(&self, bounty_id: u64) -> EscrowStatus {
        self.info(bounty_id).status
    }

    fn get_balance(&self) -> i128 {
        self.c.get_balance(self.escrow_balance()).unwrap()
    }
}

fn e2e_lock_item(bounty_id: u64, depositor: Address, amount: i128, deadline: u64) -> LockFundsItem {
    LockFundsItem { bounty_id, depositor, amount, deadline }
}

fn e2e_release_item(bounty_id: u64, contributor: Address) -> ReleaseFundsItem {
    ReleaseFundsItem { bounty_id, contributor }
}

/// Locks `amount` for `bounty_id` for a day and tags it as a bug fix.
fn lock_tagged_bounty(w: &mut E2eWorld, bounty_id: u64, amount: i128) {
    let deadline = w.now + 86400;
    let d = w.depositor;
    w.lock(d, bounty_id, amount, deadline).unwrap();
    let admin = w.admin;
    let out = w.c.update_metadata(admin, bounty_id, 1, bounty_id, String::from("bug_fix"));
    w.settle(out).unwrap();
}

#[test]
fn test_e2e_pause_prevents_operations_during_upgrade() {
    let mut w = E2eWorld::new();
    lock_tagged_bounty(&mut w, 1, 10_000);
    w.set_paused(Some(true), Some(true), Some(true)).unwrap();
    let d = w.depositor;
    let deadline = w.now + 86400;
    assert!(w.lock(d, 2, 5_000, deadline).is_err());
    let c = w.contributor;
    assert_eq!(w.release(1, c), Err(Error::FundsPaused));
}

#[test]
fn test_e2e_emergency_withdraw_requires_pause() {
    let mut w = E2eWorld::new();
    lock_tagged_bounty(&mut w, 1, 10_000);
    let target = w.generate();
    let balance = w.escrow_balance();
    let out = w.c.emergency_withdraw(w.now, target, balance);
    assert!(w.settle(out).is_err());
}

#[test]
fn test_e2e_selective_pause_during_upgrade() {
    let mut w = E2eWorld::new();
    lock_tagged_bounty(&mut w, 1, 10_000);
    w.set_paused(Some(true), Some(false), Some(false)).unwrap();
    let d = w.depositor;
    let deadline = w.now + 86400;
    assert!(w.lock(d, 2, 5_000, deadline).is_err());
    let c = w.contributor;
    w.release(1, c).unwrap();
    assert_eq!(w.status(1), EscrowStatus::Released);
}

#[test]
fn test_e2e_upgrade_preserves_escrow_metadata() {
    let mut w = E2eWorld::new();
    lock_tagged_bounty(&mut w, 1, 10_000);
    let admin = w.admin;
    let out = w.c.update_metadata(admin, 1, 123, 456, String::from("critical_bug"));
    w.settle(out).unwrap();
    w.set_paused(Some(true), Some(true), Some(true)).unwrap();
    w.set_paused(Some(false), Some(false), Some(false)).unwrap();
    let stored = w.c.get_metadata(1).unwrap();
    assert_eq!(stored.repo_id, 123);
    assert_eq!(stored.issue_id, 456);
    assert_eq!(stored.bounty_type, String::from("critical_bug"));
    let escrow = w.info(1);
    assert_eq!(escrow.depositor, w.depositor);
    assert_eq!(escrow.amount, 10_000);
    assert_eq!(escrow.deadline, w.now + 86400);
}

#[test]
fn test_e2e_upgrade_cycle_emits_events() {
    let mut w = E2eWorld::new();
    lock_tagged_bounty(&mut w, 1, 10_000);
    let before_pause = w.events.len();
    let out = w.c.set_paused(w.now, Some(true), Some(true), Some(true), Some(String::from("Maintenance")));
    w.settle(out).unwrap();
    let after_pause = w.events.len();
    assert!(after_pause > before_pause, "Pause should emit events");
    w.set_paused(Some(false), Some(false), Some(false)).unwrap();
    let after_resume = w.events.len();
    assert!(after_resume > after_pause, "Resume should emit events");
}
