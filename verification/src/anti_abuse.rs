//! Rate limiting: a cooldown between two operations of one address and a
//! cap on the operations of one address within a window. Whitelisted
//! addresses are exempt.

use vstd::prelude::*;
use crate::effects::{Outcome, auth_of};
use crate::state::{AddressState, AntiAbuseConfig, BountyEscrowContract, default_anti_abuse_config, index_extended};
use crate::types::{Address, AntiAbuseConfigView, Error};

verus! {

broadcast use vstd::std_specs::hash::group_hash_axioms;

/// Why the rate limiter refused an operation.
#[derive(Copy, Clone, Debug, PartialEq, Eq, Structural)]
pub enum AbuseRejection {
    /// The previous operation was too recent.
    Cooldown,
    /// The window's operation budget is spent.
    RateLimitExceeded,
}

/// `a + b`, capped at the largest `u64`.
pub open spec fn sat_add(a: u64, b: u64) -> u64 {
    if a + b > u64::MAX { u64::MAX } else { (a + b) as u64 }
}

/// The rate limiter's verdict for an operation at `now`: refused, or allowed
/// with the state to remember (`None` for a whitelisted address, whose state
/// is not touched).
pub open spec fn rate_limit_verdict(
    cfg: AntiAbuseConfig,
    whitelisted: bool,
    prior: Option<AddressState>,
    now: u64,
) -> Result<Option<AddressState>, AbuseRejection> {
    if whitelisted {
        Ok(None)
    } else {
        let st = match prior {
            Some(s) => s,
            None => AddressState { last_operation_timestamp: 0, window_start_timestamp: now, operation_count: 0 },
        };
        if st.last_operation_timestamp > 0 && now < sat_add(st.last_operation_timestamp, cfg.cooldown_period) {
            Err(AbuseRejection::Cooldown)
        } else if now >= sat_add(st.window_start_timestamp, cfg.window_size) {
            Ok(Some(AddressState { last_operation_timestamp: now, window_start_timestamp: now, operation_count: 1 }))
        } else if st.operation_count >= cfg.max_operations {
            Err(AbuseRejection::RateLimitExceeded)
        } else {
            Ok(Some(AddressState {
                last_operation_timestamp: now,
                window_start_timestamp: st.window_start_timestamp,
                operation_count: (st.operation_count + 1) as u32,
            }))
        }
    }
}

impl BountyEscrowContract {
    /// The verdict of the rate limiter for `address` at `now`.
    pub open spec fn rate_limit_of(&self, address: Address, now: u64) -> Result<Option<AddressState>, AbuseRejection> {
        rate_limit_verdict(
            self.abuse_config(),
            self.anti_abuse.whitelist@.contains(address.id),
            if self.anti_abuse.states@.contains_key(address.id) {
                Some(self.anti_abuse.states@[address.id])
            } else {
                None
            },
            now,
        )
    }

    /// The per-address states after an allowed operation of `address`.
    pub open spec fn states_after(&self, address: Address, now: u64) -> Map<u64, AddressState> {
        match self.rate_limit_of(address, now) {
            Ok(Some(st)) => self.anti_abuse.states@.insert(address.id, st),
            _ => self.anti_abuse.states@,
        }
    }

    /// The rate-limit settings in force (defaults: a window of 3600 s,
    /// 100 operations, a cooldown of 60 s).
    pub fn get_config(&self) -> (c: AntiAbuseConfig)
        ensures
            c == self.abuse_config(),
            self.anti_abuse.config is None ==> c == default_anti_abuse_config(),
    {
        match self.anti_abuse.config {
            Some(c) => c,
            None => AntiAbuseConfig { window_size: 3600, max_operations: 100, cooldown_period: 60 },
        }
    }

    /// Stores the rate-limit settings.
    pub fn set_config(&mut self, config: AntiAbuseConfig)
        ensures
            index_extended(*old(self), *final(self)),
            final(self).anti_abuse.config == Some(config),
            final(self).anti_abuse.admin == old(self).anti_abuse.admin,
            final(self).anti_abuse.whitelist == old(self).anti_abuse.whitelist,
            final(self).anti_abuse.states == old(self).anti_abuse.states,
            final(self).config == old(self).config,
            final(self).ledger == old(self).ledger,
            final(self).approvals == old(self).approvals,
            final(self).tickets == old(self).tickets,
            final(self).capabilities == old(self).capabilities,
            final(self).metrics == old(self).metrics,
    {
        self.anti_abuse.config = Some(config);
    }

    /// Whether the address is exempt from rate limiting.
    pub fn is_whitelisted(&self, address: Address) -> (b: bool)
        ensures
            b == self.anti_abuse.whitelist@.contains(address.id),
    {
        self.anti_abuse.whitelist.contains(&address.id)
    }

    /// Adds the address to, or removes it from, the whitelist.
    pub fn set_whitelist(&mut self, address: Address, whitelisted: bool)
        ensures
            index_extended(*old(self), *final(self)),
            whitelisted ==> final(self).anti_abuse.whitelist@ == old(self).anti_abuse.whitelist@.insert(address.id),
            !whitelisted ==> final(self).anti_abuse.whitelist@ == old(self).anti_abuse.whitelist@.remove(address.id),
            final(self).anti_abuse.config == old(self).anti_abuse.config,
            final(self).anti_abuse.admin == old(self).anti_abuse.admin,
            final(self).anti_abuse.states == old(self).anti_abuse.states,
            final(self).config == old(self).config,
            final(self).ledger == old(self).ledger,
            final(self).approvals == old(self).approvals,
            final(self).tickets == old(self).tickets,
            final(self).capabilities == old(self).capabilities,
            final(self).metrics == old(self).metrics,
    {
        if whitelisted {
            self.anti_abuse.whitelist.insert(address.id);
        } else {
            self.anti_abuse.whitelist.remove(&address.id);
        }
    }

    /// The rate-limit administrator, if one was set.
    pub fn get_admin(&self) -> (a: Option<Address>)
        ensures
            a == self.anti_abuse.admin,
    {
        self.anti_abuse.admin
    }

    /// Sets the rate-limit administrator.
    pub fn set_admin(&mut self, admin: Address)
        ensures
            index_extended(*old(self), *final(self)),
            final(self).anti_abuse.admin == Some(admin),
            final(self).anti_abuse.config == old(self).anti_abuse.config,
            final(self).anti_abuse.whitelist == old(self).anti_abuse.whitelist,
            final(self).anti_abuse.states == old(self).anti_abuse.states,
            final(self).config == old(self).config,
            final(self).ledger == old(self).ledger,
            final(self).approvals == old(self).approvals,
            final(self).tickets == old(self).tickets,
            final(self).capabilities == old(self).capabilities,
            final(self).metrics == old(self).metrics,
    {
        self.anti_abuse.admin = Some(admin);
    }

    /// The rate limiter's verdict for `address` at `now`, without recording it.
    pub fn rate_limit_decision(&self, address: Address, now: u64) -> (r: Result<Option<AddressState>, AbuseRejection>)
        ensures
            r == self.rate_limit_of(address, now),
    {
        if self.anti_abuse.whitelist.contains(&address.id) {
            return Ok(None);
        }
        let cfg = self.get_config();
        let st = match self.anti_abuse.states.get(&address.id) {
            Some(s) => *s,
            None => AddressState { last_operation_timestamp: 0, window_start_timestamp: now, operation_count: 0 },
        };
        if st.last_operation_timestamp > 0 && now < st.last_operation_timestamp.saturating_add(cfg.cooldown_period) {
            return Err(AbuseRejection::Cooldown);
        }
        if now >= st.window_start_timestamp.saturating_add(cfg.window_size) {
            Ok(Some(AddressState { last_operation_timestamp: now, window_start_timestamp: now, operation_count: 1 }))
        } else if st.operation_count >= cfg.max_operations {
            Err(AbuseRejection::RateLimitExceeded)
        } else {
            Ok(Some(AddressState {
                last_operation_timestamp: now,
                window_start_timestamp: st.window_start_timestamp,
                operation_count: st.operation_count + 1,
            }))
        }
    }

    /// Records an operation of `address` at `now` with the rate limiter. An
    /// operation in the cooldown period or over the window's cap is not
    /// allowed here: the caller tests `rate_limit_decision` first.
    pub fn check_rate_limit(&mut self, address: Address, now: u64)
        requires
            old(self).rate_limit_of(address, now) is Ok,
        ensures
            index_extended(*old(self), *final(self)),
            final(self).anti_abuse.states@ == old(self).states_after(address, now),
            final(self).anti_abuse.config == old(self).anti_abuse.config,
            final(self).anti_abuse.admin == old(self).anti_abuse.admin,
            final(self).anti_abuse.whitelist == old(self).anti_abuse.whitelist,
            final(self).config == old(self).config,
            final(self).ledger == old(self).ledger,
            final(self).approvals == old(self).approvals,
            final(self).tickets == old(self).tickets,
            final(self).capabilities == old(self).capabilities,
            final(self).metrics == old(self).metrics,
    {
        if let Ok(Some(st)) = self.rate_limit_decision(address, now) {
            self.anti_abuse.states.insert(address.id, st);
        }
    }
}

impl BountyEscrowContract {
    /// The state is the same in both except for the rate limiter's settings
    /// (configuration, administrator and whitelist).
    pub open spec fn same_but_abuse_settings(&self, other: &Self) -> bool {
        &&& self.config == other.config
        &&& self.ledger == other.ledger
        &&& self.approvals == other.approvals
        &&& self.tickets == other.tickets
        &&& self.capabilities == other.capabilities
        &&& self.anti_abuse.states == other.anti_abuse.states
        &&& self.metrics == other.metrics
    }

    /// The contract admin names the rate-limit administrator.
    pub fn set_anti_abuse_admin(&mut self, admin: Address) -> (out: Outcome<()>)
        ensures
            index_extended(*old(self), *final(self)),
            out.result is Ok <==> old(self).initialized(),
            !old(self).initialized() ==> out.result == Err::<(), Error>(Error::NotInitialized),
            out.auths@ == (if old(self).initialized() { seq![old(self).config.admin->0] } else { Seq::<Address>::empty() }),
            out.transfers@.len() == 0,
            out.events@.len() == 0,
            out.result is Err ==> *final(self) == *old(self),
            out.result is Err ==> out.transfers@.len() == 0 && out.events@.len() == 0,
            out.result is Ok ==> final(self).anti_abuse.admin == Some(admin)
                && final(self).anti_abuse.config == old(self).anti_abuse.config
                && final(self).anti_abuse.whitelist == old(self).anti_abuse.whitelist,
            final(self).same_but_abuse_settings(old(self)),
    {
        let current = match self.config.admin {
            Some(a) => a,
            None => {
                return Outcome::fail_early(Error::NotInitialized);
            },
        };
        self.set_admin(admin);
        Outcome { result: Ok(()), auths: auth_of(current), transfers: Vec::new(), events: Vec::new() }
    }

    /// The rate-limit administrator, if one was named.
    pub fn get_anti_abuse_admin(&self) -> (a: Option<Address>)
        ensures
            a == self.anti_abuse.admin,
    {
        self.get_admin()
    }

    /// The contract admin exempts `whitelisted_address` from rate limiting,
    /// or lifts the exemption.
    pub fn set_whitelist_entry(&mut self, whitelisted_address: Address, whitelisted: bool) -> (out: Outcome<()>)
        ensures
            index_extended(*old(self), *final(self)),
            out.result is Ok <==> old(self).initialized(),
            !old(self).initialized() ==> out.result == Err::<(), Error>(Error::NotInitialized),
            out.auths@ == (if old(self).initialized() { seq![old(self).config.admin->0] } else { Seq::<Address>::empty() }),
            out.transfers@.len() == 0,
            out.events@.len() == 0,
            out.result is Err ==> *final(self) == *old(self),
            out.result is Err ==> out.transfers@.len() == 0 && out.events@.len() == 0,
            out.result is Ok && whitelisted ==> final(self).anti_abuse.whitelist@
                == old(self).anti_abuse.whitelist@.insert(whitelisted_address.id),
            out.result is Ok && !whitelisted ==> final(self).anti_abuse.whitelist@
                == old(self).anti_abuse.whitelist@.remove(whitelisted_address.id),
            out.result is Ok ==> final(self).anti_abuse.admin == old(self).anti_abuse.admin
                && final(self).anti_abuse.config == old(self).anti_abuse.config,
            final(self).same_but_abuse_settings(old(self)),
    {
        let admin = match self.config.admin {
            Some(a) => a,
            None => {
                return Outcome::fail_early(Error::NotInitialized);
            },
        };
        self.set_whitelist(whitelisted_address, whitelisted);
        Outcome { result: Ok(()), auths: auth_of(admin), transfers: Vec::new(), events: Vec::new() }
    }

    /// The contract admin replaces the rate-limit settings.
    pub fn update_anti_abuse_config(&mut self, window_size: u64, max_operations: u32, cooldown_period: u64) -> (out: Outcome<()>)
        ensures
            index_extended(*old(self), *final(self)),
            out.result is Ok <==> old(self).initialized(),
            !old(self).initialized() ==> out.result == Err::<(), Error>(Error::NotInitialized),
            out.auths@ == (if old(self).initialized() { seq![old(self).config.admin->0] } else { Seq::<Address>::empty() }),
            out.transfers@.len() == 0,
            out.events@.len() == 0,
            out.result is Err ==> *final(self) == *old(self),
            out.result is Err ==> out.transfers@.len() == 0 && out.events@.len() == 0,
            out.result is Ok ==> final(self).anti_abuse.config == Some(AntiAbuseConfig { window_size, max_operations, cooldown_period })
                && final(self).anti_abuse.admin == old(self).anti_abuse.admin
                && final(self).anti_abuse.whitelist == old(self).anti_abuse.whitelist,
            final(self).same_but_abuse_settings(old(self)),
    {
        let admin = match self.config.admin {
            Some(a) => a,
            None => {
                return Outcome::fail_early(Error::NotInitialized);
            },
        };
        self.set_config(AntiAbuseConfig { window_size, max_operations, cooldown_period });
        Outcome { result: Ok(()), auths: auth_of(admin), transfers: Vec::new(), events: Vec::new() }
    }

    /// The rate-limit settings in force.
    pub fn get_anti_abuse_config(&self) -> (v: AntiAbuseConfigView)
        ensures
            v.window_size == self.abuse_config().window_size,
            v.max_operations == self.abuse_config().max_operations,
            v.cooldown_period == self.abuse_config().cooldown_period,
    {
        let c = self.get_config();
        AntiAbuseConfigView { window_size: c.window_size, max_operations: c.max_operations, cooldown_period: c.cooldown_period }
    }
}

} // verus!
