#![allow(dead_code, unused_imports)]

use std::collections::HashMap;
use bounty_escrow::effects::{Event, Outcome, Transfer};
use bounty_escrow::state::BountyEscrowContract;
use bounty_escrow::types::{Address, Error, Escrow, EscrowStatus, LockFundsItem, ReleaseFundsItem};

/// The strkey of the token contract used in these tests.
const UPGRADE_TOKEN_STRKEY: &[u8] = b"CAS3J7GYLGXMF6TDJBBYYSE3HQ6BBSMLNUQ34T6TZMYMW2EVH34XOWMA";

/// The escrow contract's own account.
const UPGRADE_ESCROW_ACCOUNT: Address = Address { id: 0 };

/// An escrow contract together with the token balances and the ledger
/// clock it runs against, and what it emitted.
struct UpgradeWorld {
    c: BountyEscrowContract,
    now: u64,
    next_account: u64,
    balances: HashMap<u64, i128>,
    events: Vec<Event>,
    auths: Vec<Address>,
    /// The accounts that sign; `None` when every authorization is granted.
    signers: Option<Vec<Address>>,
    admin: Address,
    token: Address,
    depositor: Address,
    contributor: Address,
}

impl UpgradeWorld {
    /// An initialized escrow; the depositor holds 1 000 000 tokens.
    fn new() -> UpgradeWorld {
        UpgradeWorld::with_balance(1_000_000)
    }

    /// An initialized escrow whose depositor holds `depositor_balance`.
    fn with_balance(depositor_balance: i128) -> UpgradeWorld {
        let mut w = UpgradeWorld::bare();
        let admin = w.admin;
        let token = w.token;
        let out = w.c.init(w.now, admin, token, UPGRADE_TOKEN_STRKEY);
        w.settle(out).unwrap();
        let depositor = w.depositor;
        w.mint(depositor, depositor_balance);
        w
    }

    /// An escrow that was never initialized.
    fn bare() -> UpgradeWorld {
        let mut w = UpgradeWorld {
            c: BountyEscrowContract::new(),
            now: 0,
            next_account: 1,
            balances: HashMap::new(),
            events: Vec::new(),
            auths: Vec::new(),
            signers: None,
            admin: UPGRADE_ESCROW_ACCOUNT,
            token: UPGRADE_ESCROW_ACCOUNT,
            depositor: UPGRADE_ESCROW_ACCOUNT,
            contributor: UPGRADE_ESCROW_ACCOUNT,
        };
        w.admin = w.generate();
        w.token = w.generate();
        w.depositor = w.generate();
        w.contributor = w.generate();
        w
    }

    fn generate(&mut self) -> Address {
        let a = Address { id: self.next_account };
        self.next_account += 1;
        a
    }

    fn mint(&mut self, to: Address, amount: i128) {
        *self.balances.entry(to.id).or_insert(0) += amount;
    }

    fn balance(&self, who: Address) -> i128 {
        *self.balances.get(&who.id).unwrap_or(&0)
    }

    fn escrow_balance(&self) -> i128 {
        self.balance(UPGRADE_ESCROW_ACCOUNT)
    }

    fn move_tokens(&mut self, from: Address, to: Address, amount: i128) {
        assert!(amount >= 0, "negative amount is not allowed");
        assert!(self.balance(from) >= amount, "balance is not sufficient");
        *self.balances.entry(from.id).or_insert(0) -= amount;
        *self.balances.entry(to.id).or_insert(0) += amount;
    }

    /// Performs what an entrypoint asked for when it succeeded.
    fn settle<T>(&mut self, out: Outcome<T>) -> Result<T, Error> {
        if let Some(signers) = &self.signers {
            for a in out.auths.iter() {
                assert!(signers.contains(a), "Error(Auth, InvalidAction)");
            }
        }
        self.auths.extend(out.auths.iter().copied());
        match out.result {
            Ok(v) => {
                for t in out.transfers.iter() {
                    match *t {
                        Transfer::Deposit { from, amount } => self.move_tokens(from, UPGRADE_ESCROW_ACCOUNT, amount),
                        Transfer::Payout { to, amount } => self.move_tokens(UPGRADE_ESCROW_ACCOUNT, to, amount),
                    }
                }
                self.events.extend(out.events.into_iter());
                Ok(v)
            }
            Err(e) => Err(e),
        }
    }

    fn lock(&mut self, depositor: Address, bounty_id: u64, amount: i128, deadline: u64) -> Result<(), Error> {
        if self.c.rate_limit_decision(depositor, self.now).is_err() {
            panic!("Operation in cooldown period");
        }
        let out = self.c.lock_funds(self.now, depositor, bounty_id, amount, deadline);
        self.settle(out)
    }

    fn release(&mut self, bounty_id: u64, contributor: Address) -> Result<(), Error> {
        let out = self.c.release_funds(self.now, bounty_id, contributor);
        self.settle(out)
    }

    fn partial_release(&mut self, bounty_id: u64, contributor: Address, amount: i128) -> Result<(), Error> {
        let out = self.c.partial_release(self.now, bounty_id, contributor, amount);
        self.settle(out)
    }

    fn refund(&mut self, bounty_id: u64) -> Result<(), Error> {
        let out = self.c.refund(self.now, bounty_id);
        self.settle(out)
    }

    fn batch_lock(&mut self, items: Vec<LockFundsItem>) -> Result<u32, Error> {
        let out = self.c.batch_lock_funds(self.now, &items);
        self.settle(out)
    }

    fn batch_release(&mut self, items: Vec<ReleaseFundsItem>) -> Result<u32, Error> {
        let out = self.c.batch_release_funds(self.now, &items);
        self.settle(out)
    }

    fn set_paused(&mut self, lock: Option<bool>, release: Option<bool>, refund: Option<bool>) -> Result<(), Error> {
        let out = self.c.set_paused(self.now, lock, release, refund, None);
        self.settle(out)
    }

    fn info(&self, bounty_id: u64) -> Escrow {
        self.c.get_escrow_info(bounty_id).unwrap()
    }

    fn status(&self, bounty_id: u64) -> EscrowStatus {
        self.info(bounty_id).status
    }

    fn get_balance(&self) -> i128 {
        self.c.get_balance(self.escrow_balance()).unwrap()
    }
}

fn upgrade_lock_item(bounty_id: u64, depositor: Address, amount: i128, deadline: u64) -> LockFundsItem {
    LockFundsItem { bounty_id, depositor, amount, deadline }
}

fn upgrade_release_item(bounty_id: u64, contributor: Address) -> ReleaseFundsItem {
    ReleaseFundsItem { bounty_id, contributor }
}

#[test]
fn test_upgrade_locked_bounty_remains_locked() {
    let mut w = UpgradeWorld::with_balance(10_000);
    let d = w.depositor;
    let deadline = w.now + 1000;
    w.lock(d, 1, 5_000, deadline).unwrap();
    let escrow = w.info(1);
    assert_eq!(escrow.status, EscrowStatus::Locked);
    assert_eq!(escrow.amount, 5_000);
    assert_eq!(escrow.remaining_amount, 5_000);
}

#[test]
fn test_upgrade_complete_release_flow() {
    let mut w = UpgradeWorld::with_balance(10_000);
    let (d, c) = (w.depositor, w.contributor);
    let deadline = w.now + 1000;
    w.lock(d, 1, 5_000, deadline).unwrap();
    assert_eq!(w.status(1), EscrowStatus::Locked);
    w.release(1, c).unwrap();
    assert_eq!(w.status(1), EscrowStatus::Released);
}

#[test]
fn test_upgrade_pending_lock_then_refund() {
    let mut w = UpgradeWorld::with_balance(10_000);
    let d = w.depositor;
    let deadline = w.now + 100;
    w.lock(d, 2, 5_000, deadline).unwrap();
    w.now += 200;
    w.refund(2).unwrap();
    assert_eq!(w.status(2), EscrowStatus::Refunded);
}

#[test]
fn test_upgrade_partial_release_then_complete() {
    let mut w = UpgradeWorld::with_balance(10_000);
    let (d, c) = (w.depositor, w.contributor);
    let deadline = w.now + 1000;
    w.lock(d, 3, 6_000, deadline).unwrap();
    w.partial_release(3, c, 2_000).unwrap();
    let escrow = w.info(3);
    assert_eq!(escrow.remaining_amount, 4_000);
    assert_eq!(escrow.status, EscrowStatus::Locked);
    w.partial_release(3, c, 4_000).unwrap();
    let escrow = w.info(3);
    assert_eq!(escrow.remaining_amount, 0);
    assert_eq!(escrow.status, EscrowStatus::Released);
}
