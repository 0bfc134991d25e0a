//! The pause switches: lock, release and refund can each be paused by the
//! admin, with an optional reason.

use vstd::prelude::*;
use crate::effects::{Event, Outcome, auth_of};
use crate::state::{BountyEscrowContract, Config, index_extended};
use crate::types::{Address, Error, PauseFlags, PauseOperation};

verus! {

/// The text of an optional string.
pub open spec fn opt_text(o: Option<String>) -> Option<Seq<char>> {
    match o {
        Some(s) => Some(s@),
        None => None,
    }
}

/// A copy of an optional string.
pub fn clone_opt_string(o: &Option<String>) -> (r: Option<String>)
    ensures
        opt_text(r) == opt_text(*o),
{
    match o {
        Some(s) => Some(s.clone()),
        None => None,
    }
}

/// The switches a pause request changes, in order lock, release, refund.
pub open spec fn pause_changes(lock: Option<bool>, release: Option<bool>, refund: Option<bool>) -> Seq<(PauseOperation, bool)> {
    let a = match lock { Some(p) => seq![(PauseOperation::Lock, p)], None => Seq::empty() };
    let b = match release { Some(p) => seq![(PauseOperation::Release, p)], None => Seq::empty() };
    let c = match refund { Some(p) => seq![(PauseOperation::Refund, p)], None => Seq::empty() };
    a + b + c
}

/// Whether `e` announces that `change` was made by `admin` at `now` for
/// `reason`.
pub open spec fn announces(e: Event, change: (PauseOperation, bool), admin: Address, reason: Option<String>, now: u64) -> bool {
    e matches Event::PauseStateChanged { operation, paused, admin: a, reason: r, timestamp }
        && operation == change.0 && paused == change.1 && a == admin && opt_text(r) == opt_text(reason)
        && timestamp == now
}

impl BountyEscrowContract {
    /// The pause switches in force.
    pub fn get_pause_flags(&self) -> (f: PauseFlags)
        ensures
            f.lock_paused == self.config.pause_flags.lock_paused,
            f.release_paused == self.config.pause_flags.release_paused,
            f.refund_paused == self.config.pause_flags.refund_paused,
            opt_text(f.pause_reason) == opt_text(self.config.pause_flags.pause_reason),
            f.paused_at == self.config.pause_flags.paused_at,
    {
        PauseFlags {
            lock_paused: self.config.pause_flags.lock_paused,
            release_paused: self.config.pause_flags.release_paused,
            refund_paused: self.config.pause_flags.refund_paused,
            pause_reason: clone_opt_string(&self.config.pause_flags.pause_reason),
            paused_at: self.config.pause_flags.paused_at,
        }
    }

    /// Sets the given pause switches (admin only). While any switch is on,
    /// the time of the first pause and the latest given reason are kept;
    /// once all are off, both are cleared. Each switch set is announced.
    pub fn set_paused(&mut self, now: u64, lock: Option<bool>, release: Option<bool>, refund: Option<bool>, reason: Option<String>) -> (out: Outcome<()>)
        requires
            old(self).wf(),
        ensures
            index_extended(*old(self), *final(self)),
            final(self).wf(),
            out.result is Ok <==> old(self).initialized(),
            out.result matches Err(e) ==> e == Error::NotInitialized,
            out.result is Err ==> *final(self) == *old(self),
            out.result is Err ==> out.transfers@.len() == 0 && out.events@.len() == 0,
            out.auths@ == (if old(self).initialized() { seq![old(self).config.admin->0] } else { Seq::<Address>::empty() }),
            out.transfers@.len() == 0,
            out.result is Ok ==> {
                let f = old(self).config.pause_flags;
                let g = final(self).config.pause_flags;
                let l = match lock { Some(p) => p, None => f.lock_paused };
                let rl = match release { Some(p) => p, None => f.release_paused };
                let rf = match refund { Some(p) => p, None => f.refund_paused };
                let any = l || rl || rf;
                let changes = pause_changes(lock, release, refund);
                &&& g.lock_paused == l
                &&& g.release_paused == rl
                &&& g.refund_paused == rf
                &&& g.paused_at == (if !any { 0 } else if f.paused_at == 0 { now } else { f.paused_at })
                &&& opt_text(g.pause_reason) == (if !any {
                    None
                } else if reason is Some {
                    opt_text(reason)
                } else {
                    opt_text(f.pause_reason)
                })
                &&& final(self).config == (Config { pause_flags: g, ..old(self).config })
                &&& out.events@.len() == changes.len()
                &&& forall|i: int| 0 <= i < changes.len() ==> announces(#[trigger] out.events@[i], changes[i],
                    old(self).config.admin->0, reason, now)
            },
            final(self).same_but_settings(old(self)),
    {
        let admin = match self.config.admin {
            Some(a) => a,
            None => {
                return Outcome::fail_early(Error::NotInitialized);
            },
        };
        let auths = auth_of(admin);
        let mut events: Vec<Event> = Vec::new();
        if reason.is_some() {
            self.config.pause_flags.pause_reason = clone_opt_string(&reason);
        }
        if let Some(p) = lock {
            self.config.pause_flags.lock_paused = p;
            events.push(Event::PauseStateChanged {
                operation: PauseOperation::Lock,
                paused: p,
                admin,
                reason: clone_opt_string(&reason),
                timestamp: now,
            });
        }
        let ghost after_lock = events@;
        if let Some(p) = release {
            self.config.pause_flags.release_paused = p;
            events.push(Event::PauseStateChanged {
                operation: PauseOperation::Release,
                paused: p,
                admin,
                reason: clone_opt_string(&reason),
                timestamp: now,
            });
        }
        let ghost after_release = events@;
        if let Some(p) = refund {
            self.config.pause_flags.refund_paused = p;
            events.push(Event::PauseStateChanged {
                operation: PauseOperation::Refund,
                paused: p,
                admin,
                reason: clone_opt_string(&reason),
                timestamp: now,
            });
        }
        let any = self.config.pause_flags.lock_paused || self.config.pause_flags.release_paused
            || self.config.pause_flags.refund_paused;
        if any {
            if self.config.pause_flags.paused_at == 0 {
                self.config.pause_flags.paused_at = now;
            }
        } else {
            self.config.pause_flags.pause_reason = None;
            self.config.pause_flags.paused_at = 0;
        }
        proof {
            let changes = pause_changes(lock, release, refund);
            assert forall|i: int| 0 <= i < changes.len() implies announces(#[trigger] events@[i], changes[i], admin, reason, now) by {
                let a = match lock { Some(p) => seq![(PauseOperation::Lock, p)], None => Seq::<(PauseOperation, bool)>::empty() };
                let b = match release { Some(p) => seq![(PauseOperation::Release, p)], None => Seq::<(PauseOperation, bool)>::empty() };
                if i < a.len() {
                    assert(changes[i] == a[i]);
                    assert(events@[i] == after_lock[i]);
                } else if i < a.len() + b.len() {
                    assert(changes[i] == b[i - a.len()]);
                    assert(events@[i] == after_release[i]);
                } else {
                    assert(changes[i] == (a + b + match refund { Some(p) => seq![(PauseOperation::Refund, p)], None => Seq::<(PauseOperation, bool)>::empty() })[i]);
                }
            }
        }
        Outcome { result: Ok(()), auths, transfers: Vec::new(), events }
    }
}

} // verus!
