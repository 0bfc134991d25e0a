#![allow(dead_code, unused_imports)]

use std::collections::HashMap;
use bounty_escrow::effects::{Event, Outcome, Transfer};
use bounty_escrow::state::BountyEscrowContract;
use bounty_escrow::types::{Address, Error, Escrow, EscrowStatus, LockFundsItem, ReleaseFundsItem};

/// The strkey of the token contract used in these tests.
const DISPUTE_TOKEN_STRKEY: &[u8] = b"CAS3J7GYLGXMF6TDJBBYYSE3HQ6BBSMLNUQ34T6TZMYMW2EVH34XOWMA";

/// The escrow contract's own account.
const DISPUTE_ESCROW_ACCOUNT: Address = Address { id: 0 };

/// An escrow contract together with the token balances and the ledger
/// clock it runs against, and what it emitted.
struct DisputeWorld {
    c: BountyEscrowContract,
    now: u64,
    next_account: u64,
    balances: HashMap<u64, i128>,
    events: Vec<Event>,
    auths: Vec<Address>,
    /// The accounts that sign; `None` when every authorization is granted.
    signers: Option<Vec<Address>>,
    admin: Address,
    token: Address,
    depositor: Address,
    contributor: Address,
}

impl DisputeWorld {
    /// An initialized escrow; the depositor holds 1 000 000 tokens.
    fn new() -> DisputeWorld {
        DisputeWorld::with_balance(1_000_000)
    }

    /// An initialized escrow whose depositor holds `depositor_balance`.
    fn with_balance(depositor_balance: i128) -> DisputeWorld {
        let mut w = DisputeWorld::bare();
        let admin = w.admin;
        let token = w.token;
        let out = w.c.init(w.now, admin, token, DISPUTE_TOKEN_STRKEY);
        w.settle(out).unwrap();
        let depositor = w.depositor;
        w.mint(depositor, depositor_balance);
        w
    }

    /// An escrow that was never initialized.
    fn bare() -> DisputeWorld {
        let mut w = DisputeWorld {
            c: BountyEscrowContract::new(),
            now: 0,
            next_account: 1,
            balances: HashMap::new(),
            events: Vec::new(),
            auths: Vec::new(),
            signers: None,
            admin: DISPUTE_ESCROW_ACCOUNT,
            token: DISPUTE_ESCROW_ACCOUNT,
            depositor: DISPUTE_ESCROW_ACCOUNT,
            contributor: DISPUTE_ESCROW_ACCOUNT,
        };
        w.admin = w.generate();
        w.token = w.generate();
        w.depositor = w.generate();
        w.contributor = w.generate();
        w
    }

    fn generate(&mut self) -> Address {
        let a = Address { id: self.next_account };
        self.next_account += 1;
        a
    }

    fn mint(&mut self, to: Address, amount: i128) {
        *self.balances.entry(to.id).or_insert(0) += amount;
    }

    fn balance(&self, who: Address) -> i128 {
        *self.balances.get(&who.id).unwrap_or(&0)
    }

    fn escrow_balance(&self) -> i128 {
        self.balance(DISPUTE_ESCROW_ACCOUNT)
    }

    fn move_tokens(&mut self, from: Address, to: Address, amount: i128) {
        assert!(amount >= 0, "negative amount is not allowed");
        assert!(self.balance(from) >= amount, "balance is not sufficient");
        *self.balances.entry(from.id).or_insert(0) -= amount;
        *self.balances.entry(to.id).or_insert(0) += amount;
    }

    /// Performs what an entrypoint asked for when it succeeded.
    fn settle<T>(&mut self, out: Outcome<T>) -> Result<T, Error> {
        if let Some(signers) = &self.signers {
            for a in out.auths.iter() {
                assert!(signers.contains(a), "Error(Auth, InvalidAction)");
            }
        }
        self.auths.extend(out.auths.iter().copied());
        match out.result {
            Ok(v) => {
                for t in out.transfers.iter() {
                    match *t {
                        Transfer::Deposit { from, amount } => self.move_tokens(from, DISPUTE_ESCROW_ACCOUNT, amount),
                        Transfer::Payout { to, amount } => self.move_tokens(DISPUTE_ESCROW_ACCOUNT, to, amount),
                    }
                }
                self.events.extend(out.events.into_iter());
                Ok(v)
            }
            Err(e) => Err(e),
        }
    }

    fn lock(&mut self, depositor: Address, bounty_id: u64, amount: i128, deadline: u64) -> Result<(), Error> {
        if self.c.rate_limit_decision(depositor, self.now).is_err() {
            panic!("Operation in cooldown period");
        }
        let out = self.c.lock_funds(self.now, depositor, bounty_id, amount, deadline);
        self.settle(out)
    }

    fn release(&mut self, bounty_id: u64, contributor: Address) -> Result<(), Error> {
        let out = self.c.release_funds(self.now, bounty_id, contributor);
        self.settle(out)
    }

    fn partial_release(&mut self, bounty_id: u64, contributor: Address, amount: i128) -> Result<(), Error> {
        let out = self.c.partial_release(self.now, bounty_id, contributor, amount);
        self.settle(out)
    }

    fn refund(&mut self, bounty_id: u64) -> Result<(), Error> {
        let out = self.c.refund(self.now, bounty_id);
        self.settle(out)
    }

    fn batch_lock(&mut self, items: Vec<LockFundsItem>) -> Result<u32, Error> {
        let out = self.c.batch_lock_funds(self.now, &items);
        self.settle(out)
    }

    fn batch_release(&mut self, items: Vec<ReleaseFundsItem>) -> Result<u32, Error> {
        let out = self.c.batch_release_funds(self.now, &items);
        self.settle(out)
    }

    fn set_paused(&mut self, lock: Option<bool>, release: Option<bool>, refund: Option<bool>) -> Result<(), Error> {
        let out = self.c.set_paused(self.now, lock, release, refund, None);
        self.settle(out)
    }

    fn info(&self, bounty_id: u64) -> Escrow {
        self.c.get_escrow_info(bounty_id).unwrap()
    }

    fn status(&self, bounty_id: u64) -> EscrowStatus {
        self.info(bounty_id).status
    }

    fn get_balance(&self) -> i128 {
        self.c.get_balance(self.escrow_balance()).unwrap()
    }
}

fn dispute_lock_item(bounty_id: u64, depositor: Address, amount: i128, deadline: u64) -> LockFundsItem {
    LockFundsItem { bounty_id, depositor, amount, deadline }
}

fn dispute_release_item(bounty_id: u64, contributor: Address) -> ReleaseFundsItem {
    ReleaseFundsItem { bounty_id, contributor }
}

use bounty_escrow::types::{DisputeOutcome, DisputeReason};

fn authorize(w: &mut DisputeWorld, bounty_id: u64, recipient: bounty_escrow::types::Address) -> Result<(), Error> {
    let out = w.c.authorize_claim(w.now, bounty_id, recipient, DisputeReason::Other);
    w.settle(out)
}

fn cancel_claim(w: &mut DisputeWorld, bounty_id: u64) -> Result<(), Error> {
    let out = w.c.cancel_pending_claim(w.now, bounty_id, DisputeOutcome::CancelledByAdmin);
    w.settle(out)
}

fn collect_claim(w: &mut DisputeWorld, bounty_id: u64) -> Result<(), Error> {
    let out = w.c.claim(w.now, bounty_id);
    w.settle(out)
}

fn set_window(w: &mut DisputeWorld, window: u64) {
    let out = w.c.set_claim_window(window);
    w.settle(out).unwrap();
}

#[test]
fn test_open_dispute_blocks_release() {
    let mut w = DisputeWorld::with_balance(10_000_000);
    let (d, c) = (w.depositor, w.contributor);
    let deadline = w.now + 1_000;
    w.lock(d, 61, 1_000, deadline).unwrap();
    authorize(&mut w, 61, c).unwrap();
    match w.events.last().unwrap() {
        Event::ClaimCreated { bounty_id, recipient, .. } => {
            assert_eq!(*bounty_id, 61);
            assert_eq!(*recipient, c);
        }
        _ => panic!("expected a claim creation"),
    }
    assert!(w.release(61, c).is_err());
    assert_eq!(w.status(61), EscrowStatus::Locked);
    assert_eq!(w.escrow_balance(), 1_000);
}

#[test]
fn test_open_dispute_blocks_refund() {
    let mut w = DisputeWorld::with_balance(10_000_000);
    let (d, c) = (w.depositor, w.contributor);
    let deadline = w.now + 500;
    w.lock(d, 62, 2_000, deadline).unwrap();
    authorize(&mut w, 62, c).unwrap();
    w.now = deadline + 1;
    assert_eq!(w.refund(62), Err(Error::ClaimPending));
    assert_eq!(w.status(62), EscrowStatus::Locked);
    assert_eq!(w.escrow_balance(), 2_000);
}

#[test]
fn test_resolve_dispute_in_favor_of_release() {
    let mut w = DisputeWorld::with_balance(10_000_000);
    let (d, c) = (w.depositor, w.contributor);
    let deadline = w.now + 2_000;
    set_window(&mut w, 600);
    w.lock(d, 63, 3_000, deadline).unwrap();
    authorize(&mut w, 63, c).unwrap();
    let claim = w.c.get_pending_claim(63).unwrap();
    w.now = claim.expires_at - 1;
    collect_claim(&mut w, 63).unwrap();
    match w.events.last().unwrap() {
        Event::ClaimExecuted { bounty_id, amount, .. } => {
            assert_eq!(*bounty_id, 63);
            assert_eq!(*amount, 3_000);
        }
        _ => panic!("expected a claim execution"),
    }
    assert_eq!(w.status(63), EscrowStatus::Released);
    assert_eq!(w.balance(c), 3_000);
    assert_eq!(w.escrow_balance(), 0);
}

#[test]
fn test_resolve_dispute_in_favor_of_refund() {
    let mut w = DisputeWorld::with_balance(10_000_000);
    let (d, c) = (w.depositor, w.contributor);
    let deadline = w.now + 400;
    set_window(&mut w, 100);
    w.lock(d, 64, 1_500, deadline).unwrap();
    authorize(&mut w, 64, c).unwrap();
    let claim = w.c.get_pending_claim(64).unwrap();
    w.now = claim.expires_at + 1;
    cancel_claim(&mut w, 64).unwrap();
    match w.events.last().unwrap() {
        Event::ClaimCancelled { bounty_id, amount, .. } => {
            assert_eq!(*bounty_id, 64);
            assert_eq!(*amount, 1_500);
        }
        _ => panic!("expected a claim cancellation"),
    }
    w.now = deadline + 1;
    w.refund(64).unwrap();
    let refunded = w.events.iter().rev().find(|e| matches!(e, Event::FundsRefunded { .. })).unwrap();
    match refunded {
        Event::FundsRefunded { bounty_id, amount, .. } => {
            assert_eq!(*bounty_id, 64);
            assert_eq!(*amount, 1_500);
        }
        _ => unreachable!(),
    }
    assert_eq!(w.status(64), EscrowStatus::Refunded);
    assert_eq!(w.balance(d), 10_000_000);
    assert_eq!(w.escrow_balance(), 0);
}
