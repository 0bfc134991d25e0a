//! Capabilities: an owner (the admin, or the recipient of a claim) hands a
//! holder a bounded, expiring right to release, refund, or collect a claim
//! on one escrow, usable a limited number of times.

use vstd::prelude::*;
use crate::effects::{Event, Outcome, auth_of};
use crate::state::{BountyEscrowContract, index_extended};
use crate::types::{Address, Capability, CapabilityAction, Error, EscrowStatus};

verus! {

broadcast use vstd::std_specs::hash::group_hash_axioms;

impl BountyEscrowContract {
    /// The error, if any, that keeps `owner` from delegating `action` on
    /// `bounty_id` up to `amount` at `now`: the owner must hold that authority
    /// itself, for at least that amount.
    pub open spec fn scope_error(&self, owner: Address, action: CapabilityAction, bounty_id: u64, amount: i128, now: u64) -> Option<Error> {
        if amount <= 0 {
            Some(Error::InvalidAmount)
        } else {
            match action {
                CapabilityAction::Claim => {
                    if !self.approvals.pending_claims@.contains_key(bounty_id) {
                        Some(Error::BountyNotFound)
                    } else {
                        let c = self.approvals.pending_claims@[bounty_id];
                        if c.claimed {
                            Some(Error::FundsNotLocked)
                        } else if now > c.expires_at {
                            Some(Error::DeadlineNotPassed)
                        } else if c.recipient != owner {
                            Some(Error::Unauthorized)
                        } else if amount > c.amount {
                            Some(Error::CapabilityExceedsAuthority)
                        } else {
                            None
                        }
                    }
                },
                CapabilityAction::Release => {
                    if !self.initialized() {
                        Some(Error::NotInitialized)
                    } else if self.config.admin->0 != owner {
                        Some(Error::Unauthorized)
                    } else if !self.has_escrow(bounty_id) {
                        Some(Error::BountyNotFound)
                    } else if self.escrow(bounty_id).status != EscrowStatus::Locked {
                        Some(Error::FundsNotLocked)
                    } else if amount > self.escrow(bounty_id).remaining_amount {
                        Some(Error::CapabilityExceedsAuthority)
                    } else {
                        None
                    }
                },
                CapabilityAction::Refund => {
                    if !self.initialized() {
                        Some(Error::NotInitialized)
                    } else if self.config.admin->0 != owner {
                        Some(Error::Unauthorized)
                    } else if !self.has_escrow(bounty_id) {
                        Some(Error::BountyNotFound)
                    } else if self.escrow(bounty_id).status != EscrowStatus::Locked
                        && self.escrow(bounty_id).status != EscrowStatus::PartiallyRefunded {
                        Some(Error::FundsNotLocked)
                    } else if amount > self.escrow(bounty_id).remaining_amount {
                        Some(Error::CapabilityExceedsAuthority)
                    } else {
                        None
                    }
                },
            }
        }
    }

    /// Checks that `owner` may delegate `action` on `bounty_id` up to
    /// `amount_limit` at `now`.
    pub fn validate_capability_scope_at_issue(&self, now: u64, owner: Address, action: CapabilityAction, bounty_id: u64, amount_limit: i128) -> (r: Result<(), Error>)
        ensures
            r is Ok <==> self.scope_error(owner, action, bounty_id, amount_limit, now) is None,
            r matches Err(e) ==> self.scope_error(owner, action, bounty_id, amount_limit, now) == Some(e),
    {
        if amount_limit <= 0 {
            return Err(Error::InvalidAmount);
        }
        match action {
            CapabilityAction::Claim => {
                let c = match self.approvals.pending_claims.get(&bounty_id) {
                    None => {
                        return Err(Error::BountyNotFound);
                    },
                    Some(c) => *c,
                };
                if c.claimed {
                    return Err(Error::FundsNotLocked);
                }
                if now > c.expires_at {
                    return Err(Error::DeadlineNotPassed);
                }
                if c.recipient != owner {
                    return Err(Error::Unauthorized);
                }
                if amount_limit > c.amount {
                    return Err(Error::CapabilityExceedsAuthority);
                }
                Ok(())
            },
            CapabilityAction::Release | CapabilityAction::Refund => {
                let admin = match self.config.admin {
                    None => {
                        return Err(Error::NotInitialized);
                    },
                    Some(a) => a,
                };
                if admin != owner {
                    return Err(Error::Unauthorized);
                }
                match self.ledger.escrows.get(&bounty_id) {
                    None => Err(Error::BountyNotFound),
                    Some(e) => {
                        let usable = match action {
                            CapabilityAction::Release => e.status == EscrowStatus::Locked,
                            _ => e.status == EscrowStatus::Locked || e.status == EscrowStatus::PartiallyRefunded,
                        };
                        if !usable {
                            Err(Error::FundsNotLocked)
                        } else if amount_limit > e.remaining_amount {
                            Err(Error::CapabilityExceedsAuthority)
                        } else {
                            Ok(())
                        }
                    },
                }
            },
        }
    }

    /// Checks, when a capability is used for `requested_amount`, that its
    /// owner still holds the delegated authority.
    pub fn ensure_owner_still_authorized(&self, now: u64, capability: &Capability, requested_amount: i128) -> (r: Result<(), Error>)
        ensures
            r is Ok <==> self.scope_error(capability.owner, capability.action, capability.bounty_id, requested_amount, now) is None,
            r matches Err(e) ==> self.scope_error(capability.owner, capability.action, capability.bounty_id, requested_amount, now) == Some(e),
    {
        self.validate_capability_scope_at_issue(now, capability.owner, capability.action, capability.bounty_id, requested_amount)
    }

    /// The error, if any, of `holder` using capability `capability_id` for
    /// `action` on `bounty_id` for `amount` at `now`.
    pub open spec fn consume_error(&self, holder: Address, capability_id: u64, action: CapabilityAction, bounty_id: u64, amount: i128, now: u64) -> Option<Error> {
        if !self.capabilities.capabilities@.contains_key(capability_id) {
            Some(Error::CapabilityNotFound)
        } else {
            let c = self.capabilities.capabilities@[capability_id];
            if c.revoked {
                Some(Error::CapabilityRevoked)
            } else if c.action != action || c.bounty_id != bounty_id {
                Some(Error::CapabilityActionMismatch)
            } else if c.holder != holder {
                Some(Error::Unauthorized)
            } else if now > c.expiry {
                Some(Error::CapabilityExpired)
            } else if c.remaining_uses == 0 {
                Some(Error::CapabilityUsesExhausted)
            } else if amount > c.remaining_amount {
                Some(Error::CapabilityAmountExceeded)
            } else {
                self.scope_error(c.owner, c.action, c.bounty_id, amount, now)
            }
        }
    }

    /// Whether using capability `capability_id` gets as far as the holder's
    /// authorization.
    pub open spec fn consume_reaches_auth(&self, holder: Address, capability_id: u64, action: CapabilityAction, bounty_id: u64, amount: i128, now: u64) -> bool {
        self.capabilities.capabilities@.contains_key(capability_id) && {
            let c = self.capabilities.capabilities@[capability_id];
            !c.revoked && c.action == action && c.bounty_id == bounty_id && c.holder == holder
                && now <= c.expiry && c.remaining_uses > 0 && amount <= c.remaining_amount
        }
    }

    /// The capability after one use for `amount`.
    pub open spec fn used_capability(&self, capability_id: u64, amount: i128) -> Capability {
        let c = self.capabilities.capabilities@[capability_id];
        Capability {
            remaining_amount: (c.remaining_amount - amount) as i128,
            remaining_uses: (c.remaining_uses - 1) as u32,
            ..c
        }
    }

    /// Uses capability `capability_id` once for `amount`: its remaining
    /// amount drops by `amount` and its remaining uses by one.
    pub fn consume_capability(&mut self, now: u64, holder: Address, capability_id: u64, expected_action: CapabilityAction, bounty_id: u64, amount: i128) -> (out: Outcome<Capability>)
        requires
            old(self).wf(),
        ensures
            final(self).wf(),
            index_extended(*old(self), *final(self)),
            out.result is Ok <==> old(self).consume_error(holder, capability_id, expected_action, bounty_id, amount, now) is None,
            out.result matches Err(e) ==> old(self).consume_error(holder, capability_id, expected_action, bounty_id, amount, now) == Some(e),
            out.result is Err ==> *final(self) == *old(self),
            out.result is Err ==> out.transfers@.len() == 0 && out.events@.len() == 0,
            out.auths@ == (if old(self).consume_reaches_auth(holder, capability_id, expected_action, bounty_id, amount, now) {
                seq![holder]
            } else {
                Seq::<Address>::empty()
            }),
            out.transfers@.len() == 0,
            out.result is Ok ==> {
                let c = old(self).used_capability(capability_id, amount);
                &&& out.result == Ok::<Capability, Error>(c)
                &&& final(self).capabilities.capabilities@ == old(self).capabilities.capabilities@.insert(capability_id, c)
                &&& out.events@ == seq![Event::CapabilityUsed {
                    capability_id,
                    holder,
                    action: c.action,
                    bounty_id,
                    amount_used: amount,
                    remaining_amount: c.remaining_amount,
                    remaining_uses: c.remaining_uses,
                    used_at: now,
                }]
            },
            final(self).capabilities.capability_nonce == old(self).capabilities.capability_nonce,
            final(self).config == old(self).config,
            final(self).ledger == old(self).ledger,
            final(self).approvals == old(self).approvals,
            final(self).tickets == old(self).tickets,
            final(self).anti_abuse == old(self).anti_abuse,
            final(self).metrics == old(self).metrics,
    {
        let c = match self.capabilities.capabilities.get(&capability_id) {
            None => {
                return Outcome::fail_early(Error::CapabilityNotFound);
            },
            Some(c) => *c,
        };
        if c.revoked {
            return Outcome::fail_early(Error::CapabilityRevoked);
        }
        if c.action != expected_action || c.bounty_id != bounty_id {
            return Outcome::fail_early(Error::CapabilityActionMismatch);
        }
        if c.holder != holder {
            return Outcome::fail_early(Error::Unauthorized);
        }
        if now > c.expiry {
            return Outcome::fail_early(Error::CapabilityExpired);
        }
        if c.remaining_uses == 0 {
            return Outcome::fail_early(Error::CapabilityUsesExhausted);
        }
        if amount > c.remaining_amount {
            return Outcome::fail_early(Error::CapabilityAmountExceeded);
        }
        let auths = auth_of(holder);
        if let Err(e) = self.ensure_owner_still_authorized(now, &c, amount) {
            return Outcome::fail(e, auths);
        }
        let used = Capability {
            remaining_amount: c.remaining_amount - amount,
            remaining_uses: c.remaining_uses - 1,
            ..c
        };
        self.capabilities.capabilities.insert(capability_id, used);
        let mut events = Vec::new();
        events.push(Event::CapabilityUsed {
            capability_id,
            holder,
            action: used.action,
            bounty_id,
            amount_used: amount,
            remaining_amount: used.remaining_amount,
            remaining_uses: used.remaining_uses,
            used_at: now,
        });
        Outcome { result: Ok(used), auths, transfers: Vec::new(), events }
    }

    /// The error, if any, of `owner` issuing a capability.
    pub open spec fn issue_capability_error(&self, now: u64, owner: Address, action: CapabilityAction, bounty_id: u64, amount_limit: i128, expiry: u64, max_uses: u32) -> Option<Error> {
        if !self.initialized() {
            Some(Error::NotInitialized)
        } else if max_uses == 0 {
            Some(Error::InvalidAmount)
        } else if expiry <= now {
            Some(Error::InvalidDeadline)
        } else {
            self.scope_error(owner, action, bounty_id, amount_limit, now)
        }
    }

    /// `owner` delegates `action` on `bounty_id` to `holder`, up to
    /// `amount_limit` in total, for at most `max_uses` uses, until `expiry`.
    /// Returns the new capability's identifier, one past the last one issued
    /// (saturating).
    pub fn issue_capability(&mut self, now: u64, owner: Address, holder: Address, action: CapabilityAction, bounty_id: u64, amount_limit: i128, expiry: u64, max_uses: u32) -> (out: Outcome<u64>)
        requires
            old(self).wf(),
        ensures
            final(self).wf(),
            index_extended(*old(self), *final(self)),
            out.result is Ok <==> old(self).issue_capability_error(now, owner, action, bounty_id, amount_limit, expiry, max_uses) is None,
            out.result matches Err(e) ==> old(self).issue_capability_error(now, owner, action, bounty_id, amount_limit, expiry, max_uses) == Some(e),
            out.result is Err ==> *final(self) == *old(self),
            out.result is Err ==> out.transfers@.len() == 0 && out.events@.len() == 0,
            out.auths@ == (if old(self).initialized() && max_uses != 0 && expiry > now { seq![owner] } else { Seq::<Address>::empty() }),
            out.transfers@.len() == 0,
            out.result is Ok ==> {
                let id = crate::anti_abuse::sat_add(old(self).capabilities.capability_nonce, 1);
                let c = Capability {
                    owner,
                    holder,
                    action,
                    bounty_id,
                    amount_limit,
                    remaining_amount: amount_limit,
                    expiry,
                    remaining_uses: max_uses,
                    revoked: false,
                };
                &&& out.result == Ok::<u64, Error>(id)
                &&& final(self).capabilities.capability_nonce == id
                &&& final(self).capabilities.capabilities@ == old(self).capabilities.capabilities@.insert(id, c)
                &&& out.events@ == seq![Event::CapabilityIssued {
                    capability_id: id,
                    owner,
                    holder,
                    action,
                    bounty_id,
                    amount_limit,
                    expires_at: expiry,
                    max_uses,
                    timestamp: now,
                }]
            },
            final(self).config == old(self).config,
            final(self).ledger == old(self).ledger,
            final(self).approvals == old(self).approvals,
            final(self).tickets == old(self).tickets,
            final(self).anti_abuse == old(self).anti_abuse,
            final(self).metrics == old(self).metrics,
    {
        if self.config.admin.is_none() {
            return Outcome::fail_early(Error::NotInitialized);
        }
        if max_uses == 0 {
            return Outcome::fail_early(Error::InvalidAmount);
        }
        if expiry <= now {
            return Outcome::fail_early(Error::InvalidDeadline);
        }
        let auths = auth_of(owner);
        if let Err(e) = self.validate_capability_scope_at_issue(now, owner, action, bounty_id, amount_limit) {
            return Outcome::fail(e, auths);
        }
        let id = self.next_capability_id();
        let c = Capability {
            owner,
            holder,
            action,
            bounty_id,
            amount_limit,
            remaining_amount: amount_limit,
            expiry,
            remaining_uses: max_uses,
            revoked: false,
        };
        self.capabilities.capabilities.insert(id, c);
        let mut events = Vec::new();
        events.push(Event::CapabilityIssued {
            capability_id: id,
            owner,
            holder,
            action,
            bounty_id,
            amount_limit,
            expires_at: expiry,
            max_uses,
            timestamp: now,
        });
        Outcome { result: Ok(id), auths, transfers: Vec::new(), events }
    }

    /// Advances the capability counter (saturating) and returns its new value.
    pub fn next_capability_id(&mut self) -> (id: u64)
        ensures
            index_extended(*old(self), *final(self)),
            id == crate::anti_abuse::sat_add(old(self).capabilities.capability_nonce, 1),
            final(self).capabilities.capability_nonce == id,
            final(self).capabilities.capabilities == old(self).capabilities.capabilities,
            final(self).config == old(self).config,
            final(self).ledger == old(self).ledger,
            final(self).approvals == old(self).approvals,
            final(self).tickets == old(self).tickets,
            final(self).anti_abuse == old(self).anti_abuse,
            final(self).metrics == old(self).metrics,
    {
        let id = self.capabilities.capability_nonce.saturating_add(1);
        self.capabilities.capability_nonce = id;
        id
    }

    /// The owner of capability `capability_id` revokes it; revoking a revoked
    /// capability changes nothing.
    pub fn revoke_capability(&mut self, now: u64, owner: Address, capability_id: u64) -> (out: Outcome<()>)
        requires
            old(self).wf(),
        ensures
            final(self).wf(),
            index_extended(*old(self), *final(self)),
            !old(self).capabilities.capabilities@.contains_key(capability_id) ==> out.result == Err::<(), Error>(Error::CapabilityNotFound),
            old(self).capabilities.capabilities@.contains_key(capability_id) && old(self).capabilities.capabilities@[capability_id].owner != owner
                ==> out.result == Err::<(), Error>(Error::Unauthorized),
            out.result is Ok <==> old(self).capabilities.capabilities@.contains_key(capability_id)
                && old(self).capabilities.capabilities@[capability_id].owner == owner,
            out.result is Err ==> *final(self) == *old(self),
            out.result is Err ==> out.transfers@.len() == 0 && out.events@.len() == 0,
            out.auths@ == (if out.result is Ok { seq![owner] } else { Seq::<Address>::empty() }),
            out.transfers@.len() == 0,
            out.result is Ok ==> {
                let c = old(self).capabilities.capabilities@[capability_id];
                &&& c.revoked ==> *final(self) == *old(self) && out.events@.len() == 0
                &&& !c.revoked ==> final(self).capabilities.capabilities@ == old(self).capabilities.capabilities@.insert(
                    capability_id, Capability { revoked: true, ..c })
                &&& !c.revoked ==> out.events@ == seq![Event::CapabilityRevoked { capability_id, owner, revoked_at: now }]
            },
            final(self).capabilities.capability_nonce == old(self).capabilities.capability_nonce,
            final(self).config == old(self).config,
            final(self).ledger == old(self).ledger,
            final(self).approvals == old(self).approvals,
            final(self).tickets == old(self).tickets,
            final(self).anti_abuse == old(self).anti_abuse,
            final(self).metrics == old(self).metrics,
    {
        let c = match self.capabilities.capabilities.get(&capability_id) {
            None => {
                return Outcome::fail_early(Error::CapabilityNotFound);
            },
            Some(c) => *c,
        };
        if c.owner != owner {
            return Outcome::fail_early(Error::Unauthorized);
        }
        let auths = auth_of(owner);
        if c.revoked {
            return Outcome { result: Ok(()), auths, transfers: Vec::new(), events: Vec::new() };
        }
        self.capabilities.capabilities.insert(capability_id, Capability { revoked: true, ..c });
        let mut events = Vec::new();
        events.push(Event::CapabilityRevoked { capability_id, owner, revoked_at: now });
        Outcome { result: Ok(()), auths, transfers: Vec::new(), events }
    }

    /// The capability stored under `capability_id`.
    pub fn get_capability(&self, capability_id: u64) -> (r: Result<Capability, Error>)
        ensures
            self.capabilities.capabilities@.contains_key(capability_id) ==> r == Ok::<Capability, Error>(self.capabilities.capabilities@[capability_id]),
            !self.capabilities.capabilities@.contains_key(capability_id) ==> r == Err::<Capability, Error>(Error::CapabilityNotFound),
    {
        self.load_capability(capability_id)
    }

    /// The capability stored under `capability_id`.
    pub fn load_capability(&self, capability_id: u64) -> (r: Result<Capability, Error>)
        ensures
            self.capabilities.capabilities@.contains_key(capability_id) ==> r == Ok::<Capability, Error>(self.capabilities.capabilities@[capability_id]),
            !self.capabilities.capabilities@.contains_key(capability_id) ==> r == Err::<Capability, Error>(Error::CapabilityNotFound),
    {
        match self.capabilities.capabilities.get(&capability_id) {
            Some(c) => Ok(*c),
            None => Err(Error::CapabilityNotFound),
        }
    }
}

} // verus!
