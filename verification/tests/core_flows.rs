#![allow(dead_code, unused_imports)]

use std::collections::HashMap;
use bounty_escrow::effects::{Event, Outcome, Transfer};
use bounty_escrow::state::BountyEscrowContract;
use bounty_escrow::types::{Address, Error, Escrow, EscrowStatus, LockFundsItem, ReleaseFundsItem};

/// The strkey of the token contract used in these tests.
const CORE_TOKEN_STRKEY: &[u8] = b"CAS3J7GYLGXMF6TDJBBYYSE3HQ6BBSMLNUQ34T6TZMYMW2EVH34XOWMA";

/// The escrow contract's own account.
const CORE_ESCROW_ACCOUNT: Address = Address { id: 0 };

/// An escrow contract together with the token balances and the ledger
/// clock it runs against, and what it emitted.
struct CoreWorld {
    c: BountyEscrowContract,
    now: u64,
    next_account: u64,
    balances: HashMap<u64, i128>,
    events: Vec<Event>,
    auths: Vec<Address>,
    /// The accounts that sign; `None` when every authorization is granted.
    signers: Option<Vec<Address>>,
    admin: Address,
    token: Address,
    depositor: Address,
    contributor: Address,
}

impl CoreWorld {
    /// An initialized escrow; the depositor holds 1 000 000 tokens.
    fn new() -> CoreWorld {
        CoreWorld::with_balance(1_000_000)
    }

    /// An initialized escrow whose depositor holds `depositor_balance`.
    fn with_balance(depositor_balance: i128) -> CoreWorld {
        let mut w = CoreWorld::bare();
        let admin = w.admin;
        let token = w.token;
        let out = w.c.init(w.now, admin, token, CORE_TOKEN_STRKEY);
        w.settle(out).unwrap();
        let depositor = w.depositor;
        w.mint(depositor, depositor_balance);
        w
    }

    /// An escrow that was never initialized.
    fn bare() -> CoreWorld {
        let mut w = CoreWorld {
            c: BountyEscrowContract::new(),
            now: 0,
            next_account: 1,
            balances: HashMap::new(),
            events: Vec::new(),
            auths: Vec::new(),
            signers: None,
            admin: CORE_ESCROW_ACCOUNT,
            token: CORE_ESCROW_ACCOUNT,
            depositor: CORE_ESCROW_ACCOUNT,
            contributor: CORE_ESCROW_ACCOUNT,
        };
        w.admin = w.generate();
        w.token = w.generate();
        w.depositor = w.generate();
        w.contributor = w.generate();
        w
    }

    fn generate(&mut self) -> Address {
        let a = Address { id: self.next_account };
        self.next_account += 1;
        a
    }

    fn mint(&mut self, to: Address, amount: i128) {
        *self.balances.entry(to.id).or_insert(0) += amount;
    }

    fn balance(&self, who: Address) -> i128 {
        *self.balances.get(&who.id).unwrap_or(&0)
    }

    fn escrow_balance(&self) -> i128 {
        self.balance(CORE_ESCROW_ACCOUNT)
    }

    fn move_tokens(&mut self, from: Address, to: Address, amount: i128) {
        assert!(amount >= 0, "negative amount is not allowed");
        assert!(self.balance(from) >= amount, "balance is not sufficient");
        *self.balances.entry(from.id).or_insert(0) -= amount;
        *self.balances.entry(to.id).or_insert(0) += amount;
    }

    /// Performs what an entrypoint asked for when it succeeded.
    fn settle<T>(&mut self, out: Outcome<T>) -> Result<T, Error> {
        if let Some(signers) = &self.signers {
            for a in out.auths.iter() {
                assert!(signers.contains(a), "Error(Auth, InvalidAction)");
            }
        }
        self.auths.extend(out.auths.iter().copied());
        match out.result {
            Ok(v) => {
                for t in out.transfers.iter() {
                    match *t {
                        Transfer::Deposit { from, amount } => self.move_tokens(from, CORE_ESCROW_ACCOUNT, amount),
                        Transfer::Payout { to, amount } => self.move_tokens(CORE_ESCROW_ACCOUNT, to, amount),
                    }
                }
                self.events.extend(out.events.into_iter());
                Ok(v)
            }
            Err(e) => Err(e),
        }
    }

    fn lock(&mut self, depositor: Address, bounty_id: u64, amount: i128, deadline: u64) -> Result<(), Error> {
        if self.c.rate_limit_decision(depositor, self.now).is_err() {
            panic!("Operation in cooldown period");
        }
        let out = self.c.lock_funds(self.now, depositor, bounty_id, amount, deadline);
        self.settle(out)
    }

    fn release(&mut self, bounty_id: u64, contributor: Address) -> Result<(), Error> {
        let out = self.c.release_funds(self.now, bounty_id, contributor);
        self.settle(out)
    }

    fn partial_release(&mut self, bounty_id: u64, contributor: Address, amount: i128) -> Result<(), Error> {
        let out = self.c.partial_release(self.now, bounty_id, contributor, amount);
        self.settle(out)
    }

    fn refund(&mut self, bounty_id: u64) -> Result<(), Error> {
        let out = self.c.refund(self.now, bounty_id);
        self.settle(out)
    }

    fn batch_lock(&mut self, items: Vec<LockFundsItem>) -> Result<u32, Error> {
        let out = self.c.batch_lock_funds(self.now, &items);
        self.settle(out)
    }

    fn batch_release(&mut self, items: Vec<ReleaseFundsItem>) -> Result<u32, Error> {
        let out = self.c.batch_release_funds(self.now, &items);
        self.settle(out)
    }

    fn set_paused(&mut self, lock: Option<bool>, release: Option<bool>, refund: Option<bool>) -> Result<(), Error> {
        let out = self.c.set_paused(self.now, lock, release, refund, None);
        self.settle(out)
    }

    fn info(&self, bounty_id: u64) -> Escrow {
        self.c.get_escrow_info(bounty_id).unwrap()
    }

    fn status(&self, bounty_id: u64) -> EscrowStatus {
        self.info(bounty_id).status
    }

    fn get_balance(&self) -> i128 {
        self.c.get_balance(self.escrow_balance()).unwrap()
    }
}

fn core_lock_item(bounty_id: u64, depositor: Address, amount: i128, deadline: u64) -> LockFundsItem {
    LockFundsItem { bounty_id, depositor, amount, deadline }
}

fn core_release_item(bounty_id: u64, contributor: Address) -> ReleaseFundsItem {
    ReleaseFundsItem { bounty_id, contributor }
}

// ---------------------------------------------------------------------------
// Lock, release, refund
// ---------------------------------------------------------------------------

#[test]
fn test_lock_funds_success() {
    let mut w = CoreWorld::new();
    let bounty_id = 1;
    let amount = 1000;
    let deadline = w.now + 1000;
    let depositor = w.depositor;
    w.lock(depositor, bounty_id, amount, deadline).unwrap();

    let stored = w.info(bounty_id);
    assert_eq!(stored.depositor, depositor);
    assert_eq!(stored.amount, amount);
    assert_eq!(stored.remaining_amount, amount);
    assert_eq!(stored.status, EscrowStatus::Locked);
    assert_eq!(stored.deadline, deadline);
    assert_eq!(w.escrow_balance(), amount);
}

#[test]
fn test_lock_funds_duplicate() {
    let mut w = CoreWorld::new();
    let deadline = w.now + 1000;
    let depositor = w.depositor;
    w.lock(depositor, 1, 1000, deadline).unwrap();
    let err = w.lock(depositor, 1, 1000, deadline).unwrap_err();
    assert_eq!(err, Error::BountyExists);
    assert_eq!(err.code(), 3);
}

#[test]
#[should_panic]
fn test_lock_funds_negative_amount() {
    let mut w = CoreWorld::new();
    let deadline = w.now + 1000;
    let depositor = w.depositor;
    w.lock(depositor, 1, -100, deadline).unwrap();
}

#[test]
fn test_get_escrow_info() {
    let mut w = CoreWorld::new();
    let deadline = w.now + 1000;
    let depositor = w.depositor;
    w.lock(depositor, 1, 1000, deadline).unwrap();
    let escrow = w.info(1);
    assert_eq!(escrow.amount, 1000);
    assert_eq!(escrow.remaining_amount, 1000);
    assert_eq!(escrow.deadline, deadline);
    assert_eq!(escrow.depositor, depositor);
    assert_eq!(escrow.status, EscrowStatus::Locked);
}

#[test]
fn test_release_funds_success() {
    let mut w = CoreWorld::new();
    let deadline = w.now + 1000;
    let depositor = w.depositor;
    let contributor = w.contributor;
    w.lock(depositor, 1, 1000, deadline).unwrap();
    assert_eq!(w.escrow_balance(), 1000);
    assert_eq!(w.balance(contributor), 0);

    w.release(1, contributor).unwrap();
    assert_eq!(w.status(1), EscrowStatus::Released);
    assert_eq!(w.escrow_balance(), 0);
    assert_eq!(w.balance(contributor), 1000);
}

#[test]
fn test_release_funds_already_released() {
    let mut w = CoreWorld::new();
    let deadline = w.now + 1000;
    let depositor = w.depositor;
    let contributor = w.contributor;
    w.lock(depositor, 1, 1000, deadline).unwrap();
    w.release(1, contributor).unwrap();
    let err = w.release(1, contributor).unwrap_err();
    assert_eq!(err, Error::FundsNotLocked);
    assert_eq!(err.code(), 5);
}

#[test]
fn test_release_funds_not_found() {
    let mut w = CoreWorld::new();
    let contributor = w.contributor;
    let err = w.release(1, contributor).unwrap_err();
    assert_eq!(err, Error::BountyNotFound);
    assert_eq!(err.code(), 4);
}

#[test]
fn test_refund_success() {
    let mut w = CoreWorld::new();
    let deadline = w.now + 1000;
    let depositor = w.depositor;
    w.lock(depositor, 1, 1000, deadline).unwrap();
    w.now = deadline + 1;
    let before = w.balance(depositor);
    w.refund(1).unwrap();
    assert_eq!(w.status(1), EscrowStatus::Refunded);
    assert_eq!(w.escrow_balance(), 0);
    assert_eq!(w.balance(depositor), before + 1000);
}

#[test]
fn test_refund_too_early() {
    let mut w = CoreWorld::new();
    let deadline = w.now + 1000;
    let depositor = w.depositor;
    w.lock(depositor, 1, 1000, deadline).unwrap();
    let err = w.refund(1).unwrap_err();
    assert_eq!(err, Error::DeadlineNotPassed);
    assert_eq!(err.code(), 6);
}

#[test]
fn test_get_balance() {
    let mut w = CoreWorld::new();
    let deadline = w.now + 1000;
    let depositor = w.depositor;
    assert_eq!(w.get_balance(), 0);
    w.lock(depositor, 1, 500, deadline).unwrap();
    assert_eq!(w.get_balance(), 500);
}

// ---------------------------------------------------------------------------
// Partial payouts
// ---------------------------------------------------------------------------

#[test]
fn test_partial_release_single_minimum_unit() {
    let mut w = CoreWorld::new();
    let deadline = w.now + 1000;
    let depositor = w.depositor;
    let contributor = w.contributor;
    w.lock(depositor, 42, 1000, deadline).unwrap();
    w.partial_release(42, contributor, 1).unwrap();
    let escrow = w.info(42);
    assert_eq!(escrow.remaining_amount, 999);
    assert_eq!(escrow.status, EscrowStatus::Locked);
    assert_eq!(w.balance(contributor), 1);
    assert_eq!(w.escrow_balance(), 999);
}

#[test]
fn test_partial_release_leaves_tiny_remainder() {
    let mut w = CoreWorld::new();
    let deadline = w.now + 1000;
    let depositor = w.depositor;
    let contributor = w.contributor;
    w.lock(depositor, 43, 1000, deadline).unwrap();
    w.partial_release(43, contributor, 999).unwrap();
    let escrow = w.info(43);
    assert_eq!(escrow.remaining_amount, 1);
    assert!(escrow.remaining_amount >= 0);
    assert_eq!(escrow.status, EscrowStatus::Locked);
    assert_eq!(w.balance(contributor), 999);
}

#[test]
fn test_partial_release_multiple_sequential_small_amounts() {
    let mut w = CoreWorld::new();
    let deadline = w.now + 1000;
    let depositor = w.depositor;
    let contributor = w.contributor;
    let amount = 100_i128;
    w.lock(depositor, 44, amount, deadline).unwrap();
    for i in 1..=10_i128 {
        w.partial_release(44, contributor, 10).unwrap();
        let escrow = w.info(44);
        assert_eq!(escrow.remaining_amount, amount - 10 * i);
        assert!(escrow.remaining_amount >= 0, "remaining_amount went negative at step {}", i);
    }
    let escrow = w.info(44);
    assert_eq!(escrow.remaining_amount, 0);
    assert_eq!(escrow.status, EscrowStatus::Released);
    assert_eq!(w.balance(contributor), amount);
    assert_eq!(w.escrow_balance(), 0);
}

#[test]
fn test_partial_release_full_amount_in_one_shot_marks_released() {
    let mut w = CoreWorld::new();
    let deadline = w.now + 1000;
    let depositor = w.depositor;
    let contributor = w.contributor;
    w.lock(depositor, 45, 500, deadline).unwrap();
    w.partial_release(45, contributor, 500).unwrap();
    let escrow = w.info(45);
    assert_eq!(escrow.remaining_amount, 0);
    assert_eq!(escrow.status, EscrowStatus::Released);
    assert_eq!(w.balance(contributor), 500);
    assert_eq!(w.escrow_balance(), 0);
}

#[test]
fn test_partial_release_overpayment_panics() {
    let mut w = CoreWorld::new();
    let deadline = w.now + 1000;
    let depositor = w.depositor;
    let contributor = w.contributor;
    w.lock(depositor, 46, 100, deadline).unwrap();
    w.partial_release(46, contributor, 90).unwrap();
    let err = w.partial_release(46, contributor, 11).unwrap_err();
    assert_eq!(err, Error::InsufficientFunds);
    assert_eq!(err.code(), 16);
    assert_eq!(w.info(46).remaining_amount, 10);
}

#[test]
fn test_partial_release_exact_remaining_after_prior_release() {
    let mut w = CoreWorld::new();
    let deadline = w.now + 1000;
    let depositor = w.depositor;
    let contributor = w.contributor;
    w.lock(depositor, 49, 100, deadline).unwrap();
    w.partial_release(49, contributor, 60).unwrap();
    assert_eq!(w.info(49).remaining_amount, 40);
    w.partial_release(49, contributor, 40).unwrap();
    let escrow = w.info(49);
    assert_eq!(escrow.remaining_amount, 0);
    assert_eq!(escrow.status, EscrowStatus::Released);
    assert_eq!(w.balance(contributor), 100);
}

#[test]
fn test_partial_release_zero_amount_rejected() {
    let mut w = CoreWorld::new();
    let deadline = w.now + 1000;
    let depositor = w.depositor;
    let contributor = w.contributor;
    w.lock(depositor, 47, 1000, deadline).unwrap();
    let err = w.partial_release(47, contributor, 0).unwrap_err();
    assert_eq!(err, Error::InvalidAmount);
    assert_eq!(err.code(), 13);
}

#[test]
fn test_partial_release_remaining_amount_never_goes_negative() {
    let mut w = CoreWorld::new();
    let deadline = w.now + 1000;
    let depositor = w.depositor;
    let contributor = w.contributor;
    w.lock(depositor, 48, 7, deadline).unwrap();
    for payout in [3_i128, 3_i128, 1_i128] {
        w.partial_release(48, contributor, payout).unwrap();
        let escrow = w.info(48);
        assert!(escrow.remaining_amount >= 0, "remaining_amount went negative: {}", escrow.remaining_amount);
    }
    let escrow = w.info(48);
    assert_eq!(escrow.remaining_amount, 0);
    assert_eq!(escrow.status, EscrowStatus::Released);
    assert_eq!(w.balance(contributor), 7);
    assert_eq!(w.escrow_balance(), 0);
}

#[test]
fn test_partial_release_bounty_not_found() {
    let mut w = CoreWorld::new();
    let contributor = w.contributor;
    let err = w.partial_release(999, contributor, 100).unwrap_err();
    assert_eq!(err, Error::BountyNotFound);
    assert_eq!(err.code(), 4);
}

#[test]
fn test_partial_release_on_already_released_bounty_panics() {
    let mut w = CoreWorld::new();
    let deadline = w.now + 1000;
    let depositor = w.depositor;
    let contributor = w.contributor;
    w.lock(depositor, 50, 200, deadline).unwrap();
    w.release(50, contributor).unwrap();
    let err = w.partial_release(50, contributor, 1).unwrap_err();
    assert_eq!(err, Error::FundsNotLocked);
    assert_eq!(err.code(), 5);
}

#[test]
fn test_refund_after_partial_release_returns_only_remainder() {
    let mut w = CoreWorld::new();
    let deadline = w.now + 1000;
    let depositor = w.depositor;
    let contributor = w.contributor;
    w.lock(depositor, 51, 1000, deadline).unwrap();
    w.partial_release(51, contributor, 300).unwrap();
    w.now = deadline + 1;
    let before = w.balance(depositor);
    w.refund(51).unwrap();
    assert_eq!(w.status(51), EscrowStatus::Refunded);
    assert_eq!(w.balance(contributor), 300);
    assert_eq!(w.balance(depositor), before + 700);
    assert_eq!(w.escrow_balance(), 0);
}

// ---------------------------------------------------------------------------
// Batch lock
// ---------------------------------------------------------------------------

#[test]
fn test_batch_lock_funds_success() {
    let mut w = CoreWorld::new();
    let deadline = w.now + 1000;
    let d = w.depositor;
    let items = vec![core_lock_item(1, d, 1000, deadline), core_lock_item(2, d, 2000, deadline), core_lock_item(3, d, 3000, deadline)];
    w.mint(d, 10_000);
    assert_eq!(w.batch_lock(items).unwrap(), 3);
    for i in 1..=3 {
        assert_eq!(w.status(i), EscrowStatus::Locked);
    }
    assert_eq!(w.get_balance(), 6000);
}

#[test]
fn test_batch_lock_funds_empty() {
    let mut w = CoreWorld::new();
    let err = w.batch_lock(Vec::new()).unwrap_err();
    assert_eq!(err, Error::InvalidBatchSize);
    assert_eq!(err.code(), 10);
}

#[test]
fn test_batch_lock_funds_single_item() {
    let mut w = CoreWorld::new();
    let deadline = w.now + 1000;
    let d = w.depositor;
    w.mint(d, 1000);
    assert_eq!(w.batch_lock(vec![core_lock_item(1, d, 1000, deadline)]).unwrap(), 1);
    let escrow = w.info(1);
    assert_eq!(escrow.status, EscrowStatus::Locked);
    assert_eq!(escrow.amount, 1000);
}

#[test]
fn test_batch_lock_funds_exceeds_max_batch_size() {
    let mut w = CoreWorld::new();
    let deadline = w.now + 1000;
    let d = w.depositor;
    let items: Vec<LockFundsItem> = (1..=21).map(|i| core_lock_item(i, d, 100, deadline)).collect();
    w.mint(d, 10_000);
    let err = w.batch_lock(items).unwrap_err();
    assert_eq!(err, Error::InvalidBatchSize);
    assert_eq!(err.code(), 10);
}

#[test]
fn test_batch_lock_funds_at_max_batch_size() {
    let mut w = CoreWorld::new();
    let deadline = w.now + 1000;
    let d = w.depositor;
    let items: Vec<LockFundsItem> = (1..=20).map(|i| core_lock_item(i, d, 100, deadline)).collect();
    w.mint(d, 10_000);
    assert_eq!(w.batch_lock(items).unwrap(), 20);
}

#[test]
fn test_batch_lock_funds_duplicate_bounty_id() {
    let mut w = CoreWorld::new();
    let deadline = w.now + 1000;
    let d = w.depositor;
    w.lock(d, 1, 1000, deadline).unwrap();
    let err = w.batch_lock(vec![core_lock_item(1, d, 2000, deadline), core_lock_item(2, d, 3000, deadline)]).unwrap_err();
    assert_eq!(err, Error::BountyExists);
    assert_eq!(err.code(), 3);
}

#[test]
fn test_batch_lock_funds_duplicate_in_batch() {
    let mut w = CoreWorld::new();
    let deadline = w.now + 1000;
    let d = w.depositor;
    let err = w.batch_lock(vec![core_lock_item(1, d, 1000, deadline), core_lock_item(1, d, 2000, deadline)]).unwrap_err();
    assert_eq!(err, Error::DuplicateBountyId);
    assert_eq!(err.code(), 12);
}

#[test]
fn test_batch_lock_funds_triple_duplicate_in_batch() {
    let mut w = CoreWorld::new();
    let deadline = w.now + 1000;
    let d = w.depositor;
    w.mint(d, 10_000);
    let items = vec![core_lock_item(1, d, 1000, deadline), core_lock_item(1, d, 2000, deadline), core_lock_item(1, d, 3000, deadline)];
    let err = w.batch_lock(items).unwrap_err();
    assert_eq!(err, Error::DuplicateBountyId);
    assert_eq!(err.code(), 12);
}

#[test]
fn test_batch_lock_funds_non_adjacent_duplicates() {
    let mut w = CoreWorld::new();
    let deadline = w.now + 1000;
    let d = w.depositor;
    w.mint(d, 10_000);
    let items = vec![core_lock_item(1, d, 1000, deadline), core_lock_item(2, d, 2000, deadline), core_lock_item(1, d, 3000, deadline)];
    let err = w.batch_lock(items).unwrap_err();
    assert_eq!(err, Error::DuplicateBountyId);
    assert_eq!(err.code(), 12);
}

#[test]
fn test_batch_lock_funds_zero_amount() {
    let mut w = CoreWorld::new();
    let deadline = w.now + 1000;
    let d = w.depositor;
    let err = w.batch_lock(vec![core_lock_item(1, d, 0, deadline)]).unwrap_err();
    assert_eq!(err, Error::InvalidAmount);
    assert_eq!(err.code(), 13);
}

#[test]
fn test_batch_lock_funds_negative_amount() {
    let mut w = CoreWorld::new();
    let deadline = w.now + 1000;
    let d = w.depositor;
    let err = w.batch_lock(vec![core_lock_item(1, d, -100, deadline)]).unwrap_err();
    assert_eq!(err, Error::InvalidAmount);
    assert_eq!(err.code(), 13);
}

#[test]
fn test_batch_lock_funds_mixed_valid_invalid_amounts() {
    let mut w = CoreWorld::new();
    let deadline = w.now + 1000;
    let d = w.depositor;
    w.mint(d, 2000);
    let err = w.batch_lock(vec![core_lock_item(1, d, 1000, deadline), core_lock_item(2, d, 0, deadline)]).unwrap_err();
    assert_eq!(err, Error::InvalidAmount);
    assert_eq!(err.code(), 13);
}

#[test]
fn test_batch_lock_funds_first_valid_second_exists() {
    let mut w = CoreWorld::new();
    let deadline = w.now + 1000;
    let d = w.depositor;
    w.lock(d, 2, 1000, deadline).unwrap();
    w.mint(d, 5000);
    let err = w.batch_lock(vec![core_lock_item(1, d, 1000, deadline), core_lock_item(2, d, 2000, deadline)]).unwrap_err();
    assert_eq!(err, Error::BountyExists);
    assert_eq!(err.code(), 3);
}

#[test]
fn test_batch_operations_atomicity() {
    let mut w = CoreWorld::new();
    let deadline = w.now + 1000;
    let d = w.depositor;
    w.lock(d, 1, 1000, deadline).unwrap();
    let err = w.batch_lock(vec![core_lock_item(2, d, 2000, deadline), core_lock_item(1, d, 3000, deadline)]).unwrap_err();
    assert_eq!(err, Error::BountyExists);
    assert_eq!(err.code(), 3);
    // nothing of the batch was locked
    assert_eq!(w.c.get_escrow_info(2).unwrap_err(), Error::BountyNotFound);
    assert_eq!(w.get_balance(), 1000);
}

// ---------------------------------------------------------------------------
// Batch release
// ---------------------------------------------------------------------------

#[test]
fn test_batch_release_funds_success() {
    let mut w = CoreWorld::new();
    let deadline = w.now + 1000;
    let d = w.depositor;
    w.lock(d, 1, 1000, deadline).unwrap();
    w.lock(d, 2, 2000, deadline).unwrap();
    w.lock(d, 3, 3000, deadline).unwrap();
    let c1 = w.generate();
    let c2 = w.generate();
    let c3 = w.generate();
    let count = w.batch_release(vec![core_release_item(1, c1), core_release_item(2, c2), core_release_item(3, c3)]).unwrap();
    assert_eq!(count, 3);
    for i in 1..=3 {
        assert_eq!(w.status(i), EscrowStatus::Released);
    }
    assert_eq!(w.balance(c1), 1000);
    assert_eq!(w.balance(c2), 2000);
    assert_eq!(w.balance(c3), 3000);
    assert_eq!(w.get_balance(), 0);
}

#[test]
fn test_batch_release_funds_empty() {
    let mut w = CoreWorld::new();
    let err = w.batch_release(Vec::new()).unwrap_err();
    assert_eq!(err, Error::InvalidBatchSize);
    assert_eq!(err.code(), 10);
}

#[test]
fn test_batch_release_funds_single_item() {
    let mut w = CoreWorld::new();
    let deadline = w.now + 1000;
    let d = w.depositor;
    w.lock(d, 1, 1000, deadline).unwrap();
    let c = w.generate();
    assert_eq!(w.batch_release(vec![core_release_item(1, c)]).unwrap(), 1);
    assert_eq!(w.status(1), EscrowStatus::Released);
    assert_eq!(w.balance(c), 1000);
}

#[test]
fn test_batch_release_funds_exceeds_max_batch_size() {
    let mut w = CoreWorld::new();
    let deadline = w.now + 1000;
    let d = w.depositor;
    let lock_items: Vec<LockFundsItem> = (1..=20).map(|i| core_lock_item(i, d, 100, deadline)).collect();
    w.mint(d, 10_000);
    w.batch_lock(lock_items).unwrap();
    let mut release_items = Vec::new();
    for i in 1..=21 {
        let c = w.generate();
        release_items.push(core_release_item(i, c));
    }
    let err = w.batch_release(release_items).unwrap_err();
    assert_eq!(err, Error::InvalidBatchSize);
    assert_eq!(err.code(), 10);
}

#[test]
fn test_batch_release_funds_not_found() {
    let mut w = CoreWorld::new();
    let c = w.generate();
    let err = w.batch_release(vec![core_release_item(999, c)]).unwrap_err();
    assert_eq!(err, Error::BountyNotFound);
    assert_eq!(err.code(), 4);
}

#[test]
fn test_batch_release_funds_already_released() {
    let mut w = CoreWorld::new();
    let deadline = w.now + 1000;
    let d = w.depositor;
    let contributor = w.contributor;
    w.lock(d, 1, 1000, deadline).unwrap();
    w.release(1, contributor).unwrap();
    w.lock(d, 2, 2000, deadline).unwrap();
    let c2 = w.generate();
    let err = w.batch_release(vec![core_release_item(1, contributor), core_release_item(2, c2)]).unwrap_err();
    assert_eq!(err, Error::FundsNotLocked);
    assert_eq!(err.code(), 5);
}

#[test]
fn test_batch_release_funds_duplicate_in_batch() {
    let mut w = CoreWorld::new();
    let deadline = w.now + 1000;
    let d = w.depositor;
    w.lock(d, 1, 1000, deadline).unwrap();
    let c = w.generate();
    let err = w.batch_release(vec![core_release_item(1, c), core_release_item(1, c)]).unwrap_err();
    assert_eq!(err, Error::DuplicateBountyId);
    assert_eq!(err.code(), 12);
}

#[test]
fn test_batch_release_funds_first_valid_second_not_found() {
    let mut w = CoreWorld::new();
    let deadline = w.now + 1000;
    let d = w.depositor;
    w.lock(d, 1, 1000, deadline).unwrap();
    let c = w.generate();
    let err = w.batch_release(vec![core_release_item(1, c), core_release_item(999, c)]).unwrap_err();
    assert_eq!(err, Error::BountyNotFound);
    assert_eq!(err.code(), 4);
    assert_eq!(w.status(1), EscrowStatus::Locked);
}

#[test]
fn test_batch_release_funds_mixed_locked_and_refunded() {
    let mut w = CoreWorld::new();
    let deadline = w.now + 100;
    let d = w.depositor;
    w.lock(d, 1, 1000, deadline).unwrap();
    w.lock(d, 2, 2000, deadline).unwrap();
    w.now = deadline + 1;
    w.refund(2).unwrap();
    let c = w.generate();
    let err = w.batch_release(vec![core_release_item(1, c), core_release_item(2, c)]).unwrap_err();
    assert_eq!(err, Error::FundsNotLocked);
    assert_eq!(err.code(), 5);
}

#[test]
fn test_batch_release_funds_non_adjacent_duplicates() {
    let mut w = CoreWorld::new();
    let deadline = w.now + 1000;
    let d = w.depositor;
    w.lock(d, 1, 1000, deadline).unwrap();
    w.lock(d, 2, 2000, deadline).unwrap();
    let c = w.generate();
    let err = w.batch_release(vec![core_release_item(1, c), core_release_item(2, c), core_release_item(1, c)]).unwrap_err();
    assert_eq!(err, Error::DuplicateBountyId);
    assert_eq!(err.code(), 12);
}

#[test]
fn test_batch_operations_large_batch() {
    let mut w = CoreWorld::new();
    let deadline = w.now + 1000;
    let d = w.depositor;
    let items: Vec<LockFundsItem> = (1..=10).map(|i| core_lock_item(i, d, (i * 100) as i128, deadline)).collect();
    w.mint(d, 10_000);
    assert_eq!(w.batch_lock(items).unwrap(), 10);
    for i in 1..=10 {
        assert_eq!(w.status(i), EscrowStatus::Locked);
    }
    let mut release_items = Vec::new();
    for i in 1..=10 {
        let c = w.generate();
        release_items.push(core_release_item(i, c));
    }
    assert_eq!(w.batch_release(release_items).unwrap(), 10);
}

#[test]
fn test_batch_operations_multiple_depositors() {
    let mut w = CoreWorld::new();
    let deadline = w.now + 1000;
    let d = w.depositor;
    let d2 = w.generate();
    let initial = w.balance(d);
    w.mint(d2, 5000);
    let items = vec![core_lock_item(1, d, 1000, deadline), core_lock_item(2, d2, 2000, deadline), core_lock_item(3, d, 3000, deadline)];
    assert_eq!(w.batch_lock(items).unwrap(), 3);
    assert_eq!(w.info(1).depositor, d);
    assert_eq!(w.info(2).depositor, d2);
    assert_eq!(w.info(3).depositor, d);
    assert_eq!(w.balance(d), initial - 4000);
    assert_eq!(w.balance(d2), 3000);
    assert_eq!(w.get_balance(), 6000);
}

#[test]
fn test_batch_release_funds_to_multiple_contributors() {
    let mut w = CoreWorld::new();
    let deadline = w.now + 1000;
    let d = w.depositor;
    w.lock(d, 1, 1000, deadline).unwrap();
    w.lock(d, 2, 2000, deadline).unwrap();
    w.lock(d, 3, 3000, deadline).unwrap();
    let c1 = w.generate();
    let c2 = w.generate();
    let c3 = w.generate();
    assert_eq!(w.batch_release(vec![core_release_item(1, c1), core_release_item(2, c2), core_release_item(3, c3)]).unwrap(), 3);
    assert_eq!(w.balance(c1), 1000);
    assert_eq!(w.balance(c2), 2000);
    assert_eq!(w.balance(c3), 3000);
    assert_eq!(w.get_balance(), 0);
}
