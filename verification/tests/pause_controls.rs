#![allow(dead_code, unused_imports)]

use std::collections::HashMap;
use bounty_escrow::effects::{Event, Outcome, Transfer};
use bounty_escrow::state::BountyEscrowContract;
use bounty_escrow::types::{Address, Error, Escrow, EscrowStatus, LockFundsItem, ReleaseFundsItem};

/// The strkey of the token contract used in these tests.
const PAUSE_TOKEN_STRKEY: &[u8] = b"CAS3J7GYLGXMF6TDJBBYYSE3HQ6BBSMLNUQ34T6TZMYMW2EVH34XOWMA";

/// The escrow contract's own account.
const PAUSE_ESCROW_ACCOUNT: Address = Address { id: 0 };

/// An escrow contract together with the token balances and the ledger
/// clock it runs against, and what it emitted.
struct PauseWorld {
    c: BountyEscrowContract,
    now: u64,
    next_account: u64,
    balances: HashMap<u64, i128>,
    events: Vec<Event>,
    auths: Vec<Address>,
    /// The accounts that sign; `None` when every authorization is granted.
    signers: Option<Vec<Address>>,
    admin: Address,
    token: Address,
    depositor: Address,
    contributor: Address,
}

impl PauseWorld {
    /// An initialized escrow; the depositor holds 1 000 000 tokens.
    fn new() -> PauseWorld {
        PauseWorld::with_balance(1_000_000)
    }

    /// An initialized escrow whose depositor holds `depositor_balance`.
    fn with_balance(depositor_balance: i128) -> PauseWorld {
        let mut w = PauseWorld::bare();
        let admin = w.admin;
        let token = w.token;
        let out = w.c.init(w.now, admin, token, PAUSE_TOKEN_STRKEY);
        w.settle(out).unwrap();
        let depositor = w.depositor;
        w.mint(depositor, depositor_balance);
        w
    }

    /// An escrow that was never initialized.
    fn bare() -> PauseWorld {
        let mut w = PauseWorld {
            c: BountyEscrowContract::new(),
            now: 0,
            next_account: 1,
            balances: HashMap::new(),
            events: Vec::new(),
            auths: Vec::new(),
            signers: None,
            admin: PAUSE_ESCROW_ACCOUNT,
            token: PAUSE_ESCROW_ACCOUNT,
            depositor: PAUSE_ESCROW_ACCOUNT,
            contributor: PAUSE_ESCROW_ACCOUNT,
        };
        w.admin = w.generate();
        w.token = w.generate();
        w.depositor = w.generate();
        w.contributor = w.generate();
        w
    }

    fn generate(&mut self) -> Address {
        let a = Address { id: self.next_account };
        self.next_account += 1;
        a
    }

    fn mint(&mut self, to: Address, amount: i128) {
        *self.balances.entry(to.id).or_insert(0) += amount;
    }

    fn balance(&self, who: Address) -> i128 {
        *self.balances.get(&who.id).unwrap_or(&0)
    }

    fn escrow_balance(&self) -> i128 {
        self.balance(PAUSE_ESCROW_ACCOUNT)
    }

    fn move_tokens(&mut self, from: Address, to: Address, amount: i128) {
        assert!(amount >= 0, "negative amount is not allowed");
        assert!(self.balance(from) >= amount, "balance is not sufficient");
        *self.balances.entry(from.id).or_insert(0) -= amount;
        *self.balances.entry(to.id).or_insert(0) += amount;
    }

    /// Performs what an entrypoint asked for when it succeeded.
    fn settle<T>(&mut self, out: Outcome<T>) -> Result<T, Error> {
        if let Some(signers) = &self.signers {
            for a in out.auths.iter() {
                assert!(signers.contains(a), "Error(Auth, InvalidAction)");
            }
        }
        self.auths.extend(out.auths.iter().copied());
        match out.result {
            Ok(v) => {
                for t in out.transfers.iter() {
                    match *t {
                        Transfer::Deposit { from, amount } => self.move_tokens(from, PAUSE_ESCROW_ACCOUNT, amount),
                        Transfer::Payout { to, amount } => self.move_tokens(PAUSE_ESCROW_ACCOUNT, to, amount),
                    }
                }
                self.events.extend(out.events.into_iter());
                Ok(v)
            }
            Err(e) => Err(e),
        }
    }

    fn lock(&mut self, depositor: Address, bounty_id: u64, amount: i128, deadline: u64) -> Result<(), Error> {
        if self.c.rate_limit_decision(depositor, self.now).is_err() {
            panic!("Operation in cooldown period");
        }
        let out = self.c.lock_funds(self.now, depositor, bounty_id, amount, deadline);
        self.settle(out)
    }

    fn release(&mut self, bounty_id: u64, contributor: Address) -> Result<(), Error> {
        let out = self.c.release_funds(self.now, bounty_id, contributor);
        self.settle(out)
    }

    fn partial_release(&mut self, bounty_id: u64, contributor: Address, amount: i128) -> Result<(), Error> {
        let out = self.c.partial_release(self.now, bounty_id, contributor, amount);
        self.settle(out)
    }

    fn refund(&mut self, bounty_id: u64) -> Result<(), Error> {
        let out = self.c.refund(self.now, bounty_id);
        self.settle(out)
    }

    fn batch_lock(&mut self, items: Vec<LockFundsItem>) -> Result<u32, Error> {
        let out = self.c.batch_lock_funds(self.now, &items);
        self.settle(out)
    }

    fn batch_release(&mut self, items: Vec<ReleaseFundsItem>) -> Result<u32, Error> {
        let out = self.c.batch_release_funds(self.now, &items);
        self.settle(out)
    }

    fn set_paused(&mut self, lock: Option<bool>, release: Option<bool>, refund: Option<bool>) -> Result<(), Error> {
        let out = self.c.set_paused(self.now, lock, release, refund, None);
        self.settle(out)
    }

    fn info(&self, bounty_id: u64) -> Escrow {
        self.c.get_escrow_info(bounty_id).unwrap()
    }

    fn status(&self, bounty_id: u64) -> EscrowStatus {
        self.info(bounty_id).status
    }

    fn get_balance(&self) -> i128 {
        self.c.get_balance(self.escrow_balance()).unwrap()
    }
}

fn pause_lock_item(bounty_id: u64, depositor: Address, amount: i128, deadline: u64) -> LockFundsItem {
    LockFundsItem { bounty_id, depositor, amount, deadline }
}

fn pause_release_item(bounty_id: u64, contributor: Address) -> ReleaseFundsItem {
    ReleaseFundsItem { bounty_id, contributor }
}

use bounty_escrow::types::PauseOperation;

#[test]
fn test_granular_pause_lock() {
    let mut w = PauseWorld::with_balance(1000);
    let flags = w.c.get_pause_flags();
    assert_eq!(flags.lock_paused, false);
    assert_eq!(flags.release_paused, false);
    assert_eq!(flags.refund_paused, false);
    let d = w.depositor;
    let deadline = w.now + 1000;
    w.lock(d, 1, 100, deadline).unwrap();
    w.set_paused(Some(true), None, None).unwrap();
    assert_eq!(w.c.get_pause_flags().lock_paused, true);
    assert!(w.lock(d, 2, 100, deadline).is_err());
    w.set_paused(Some(false), None, None).unwrap();
    assert_eq!(w.c.get_pause_flags().lock_paused, false);
    w.lock(d, 2, 100, deadline).unwrap();
}

#[test]
fn test_granular_pause_release() {
    let mut w = PauseWorld::with_balance(1000);
    let d = w.depositor;
    let c = w.contributor;
    let deadline = w.now + 1000;
    w.lock(d, 1, 100, deadline).unwrap();
    w.set_paused(None, Some(true), None).unwrap();
    assert_eq!(w.c.get_pause_flags().release_paused, true);
    assert!(w.release(1, c).is_err());
    w.set_paused(None, Some(false), None).unwrap();
    assert_eq!(w.c.get_pause_flags().release_paused, false);
    w.release(1, c).unwrap();
}

#[test]
fn test_granular_pause_refund() {
    let mut w = PauseWorld::with_balance(1000);
    let d = w.depositor;
    let deadline = w.now + 1000;
    w.lock(d, 1, 100, deadline).unwrap();
    w.now = deadline + 1;
    w.set_paused(None, None, Some(true)).unwrap();
    assert_eq!(w.c.get_pause_flags().refund_paused, true);
    assert!(w.refund(1).is_err());
    w.set_paused(None, None, Some(false)).unwrap();
    assert_eq!(w.c.get_pause_flags().refund_paused, false);
    w.refund(1).unwrap();
}

#[test]
fn test_mixed_pause_states() {
    let mut w = PauseWorld::with_balance(0);
    w.set_paused(Some(true), Some(true), Some(false)).unwrap();
    let flags = w.c.get_pause_flags();
    assert_eq!(flags.lock_paused, true);
    assert_eq!(flags.release_paused, true);
    assert_eq!(flags.refund_paused, false);
    w.set_paused(None, Some(false), None).unwrap();
    let flags = w.c.get_pause_flags();
    assert_eq!(flags.lock_paused, true);
    assert_eq!(flags.release_paused, false);
    assert_eq!(flags.refund_paused, false);
}

#[test]
#[should_panic(expected = "Error(Auth, InvalidAction)")]
fn test_pause_by_non_admin_fails() {
    let mut w = PauseWorld::with_balance(0);
    let non_admin = w.generate();
    w.signers = Some(vec![non_admin]);
    let _ = w.set_paused(Some(true), Some(true), Some(true));
}

#[test]
fn test_set_paused_emits_events() {
    let mut w = PauseWorld::with_balance(0);
    let admin = w.admin;
    w.set_paused(Some(true), None, None).unwrap();
    let emitted = w.events.last().unwrap();
    match emitted {
        Event::PauseStateChanged { operation, paused, admin: by, .. } => {
            assert_eq!(*operation, PauseOperation::Lock);
            assert_eq!(*paused, true);
            assert_eq!(*by, admin);
        }
        _ => panic!("expected a pause state change"),
    }
}

#[test]
fn test_batch_lock_funds_while_paused_fails() {
    let mut w = PauseWorld::with_balance(1000);
    w.set_paused(Some(true), None, None).unwrap();
    let d = w.depositor;
    let deadline = w.now + 1000;
    assert!(w.batch_lock(vec![pause_lock_item(1, d, 100, deadline), pause_lock_item(2, d, 100, deadline)]).is_err());
}

#[test]
fn test_batch_release_funds_while_paused_fails() {
    let mut w = PauseWorld::with_balance(1000);
    let d = w.depositor;
    let c = w.contributor;
    let deadline = w.now + 1000;
    w.lock(d, 1, 100, deadline).unwrap();
    w.set_paused(None, Some(true), None).unwrap();
    assert!(w.batch_release(vec![pause_release_item(1, c)]).is_err());
}

#[test]
fn test_operations_resume_after_unpause() {
    let mut w = PauseWorld::with_balance(1000);
    w.set_paused(Some(true), Some(true), Some(true)).unwrap();
    let d = w.depositor;
    let deadline = w.now + 1000;
    assert!(w.lock(d, 1, 100, deadline).is_err());
    w.set_paused(Some(false), None, None).unwrap();
    w.lock(d, 1, 100, deadline).unwrap();
    let c = w.generate();
    assert!(w.release(1, c).is_err());
    w.set_paused(None, Some(false), None).unwrap();
    w.release(1, c).unwrap();
}

#[test]
fn test_lock_funds_while_paused_no_state_change() {
    let mut w = PauseWorld::with_balance(1000);
    w.set_paused(Some(true), None, None).unwrap();
    let d = w.depositor;
    let deadline = w.now + 1000;
    let _ = w.lock(d, 1, 100, deadline);
    assert_eq!(w.balance(d), 1000);
    assert!(w.c.get_escrow_info(1).is_err());
}

#[test]
#[should_panic(expected = "Error(Auth, InvalidAction)")]
fn test_emergency_withdraw_non_admin_fails() {
    let mut w = PauseWorld::with_balance(0);
    let target = w.generate();
    w.signers = Some(Vec::new());
    let balance = w.escrow_balance();
    let out = w.c.emergency_withdraw(w.now, target, balance);
    let _ = w.settle(out);
}

#[test]
fn test_emergency_withdraw_unpaused_fails() {
    let mut w = PauseWorld::with_balance(0);
    let target = w.generate();
    let balance = w.escrow_balance();
    let out = w.c.emergency_withdraw(w.now, target, balance);
    let err = w.settle(out).unwrap_err();
    assert_eq!(err, Error::NotPaused);
}

#[test]
fn test_emergency_withdraw_succeeds() {
    let mut w = PauseWorld::with_balance(1000);
    let target = w.generate();
    let d = w.depositor;
    let deadline = w.now + 1000;
    w.lock(d, 1, 500, deadline).unwrap();
    assert_eq!(w.escrow_balance(), 500);
    let out = w.c.set_paused(w.now, Some(true), None, None, Some(String::from("Hacked")));
    w.settle(out).unwrap();
    let balance = w.escrow_balance();
    let out = w.c.emergency_withdraw(w.now, target, balance);
    w.settle(out).unwrap();
    assert_eq!(w.escrow_balance(), 0);
    assert_eq!(w.balance(target), 500);
}
