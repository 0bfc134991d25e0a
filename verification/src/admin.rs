//! Initialization and the admin's configuration: fees, pause switches,
//! multisignature policy, amount policy, rate limits and metadata.

use vstd::prelude::*;
use crate::asset::{is_contract_strkey, normalize_asset_id};
use crate::effects::{Event, Outcome, auth_of};
use crate::state::{AntiAbuseConfig, BountyEscrowContract, Config, index_extended};
use crate::types::{Address, AntiAbuseConfigView, Error, EscrowMetadata, FeeConfig};

verus! {

broadcast use vstd::std_specs::hash::group_hash_axioms;

/// Fee rates are expressed in basis points of this many.
pub const BASIS_POINTS: i128 = 10_000;

/// The highest fee rate, in basis points (10%).
pub const MAX_FEE_RATE: i128 = 1_000;

/// The fee on `amount` at `fee_rate` basis points, rounded down.
pub open spec fn fee_of(amount: int, fee_rate: int) -> int {
    amount * fee_rate / 10_000
}

impl BountyEscrowContract {
    /// The fee on `amount` at `fee_rate` basis points, rounded down; computed
    /// without forming the full product, so it cannot overflow.
    pub fn calculate_fee(amount: i128, fee_rate: i128) -> (fee: i128)
        requires
            0 <= amount,
            0 <= fee_rate <= BASIS_POINTS,
        ensures
            fee == fee_of(amount as int, fee_rate as int),
            0 <= fee <= amount,
    {
        let q = amount / BASIS_POINTS;
        let r = amount % BASIS_POINTS;
        proof {
            assert(amount == q * 10_000 + r) by (nonlinear_arith)
                requires q == amount / 10_000, r == amount % 10_000, 0 <= amount;
            assert(0 <= q * fee_rate <= q * 10_000) by (nonlinear_arith)
                requires 0 <= q, 0 <= fee_rate <= 10_000;
            assert(0 <= r * fee_rate <= 10_000 * 10_000) by (nonlinear_arith)
                requires 0 <= r < 10_000, 0 <= fee_rate <= 10_000;
            assert(amount * fee_rate / 10_000 == q * fee_rate + (r * fee_rate) / 10_000) by (nonlinear_arith)
                requires amount == q * 10_000 + r, 0 <= r, 0 <= fee_rate;
            assert((r * fee_rate) / 10_000 <= r) by (nonlinear_arith)
                requires 0 <= r, 0 <= fee_rate <= 10_000;
        }
        q * fee_rate + (r * fee_rate) / BASIS_POINTS
    }

    /// The fee configuration in force: the stored one, or no fees paid to
    /// the admin.
    pub open spec fn fee_config_of(&self) -> FeeConfig {
        match self.config.fee_config {
            Some(c) => c,
            None => FeeConfig { lock_fee_rate: 0, release_fee_rate: 0, fee_recipient: self.config.admin->0, fee_enabled: false },
        }
    }

    /// The fee configuration in force.
    pub fn get_fee_config_internal(&self) -> (c: FeeConfig)
        requires
            self.config.fee_config is Some || self.initialized(),
        ensures
            c == self.fee_config_of(),
    {
        match self.config.fee_config {
            Some(c) => c,
            None => {
                let admin = match self.config.admin {
                    Some(a) => a,
                    None => Address { id: 0 },
                };
                FeeConfig { lock_fee_rate: 0, release_fee_rate: 0, fee_recipient: admin, fee_enabled: false }
            },
        }
    }

    /// The fee configuration in force.
    pub fn get_fee_config(&self) -> (c: FeeConfig)
        requires
            self.config.fee_config is Some || self.initialized(),
        ensures
            c == self.fee_config_of(),
    {
        self.get_fee_config_internal()
    }

    /// Everything but the settings is the same in both states.
    pub open spec fn same_but_settings(&self, other: &Self) -> bool {
        &&& self.ledger == other.ledger
        &&& self.approvals == other.approvals
        &&& self.tickets == other.tickets
        &&& self.capabilities == other.capabilities
        &&& self.anti_abuse == other.anti_abuse
        &&& self.metrics == other.metrics
    }

    /// The error, if any, of initializing with a token whose strkey is `strkey`.
    pub open spec fn init_error(&self, strkey: Seq<u8>) -> Option<Error> {
        if self.initialized() {
            Some(Error::AlreadyInitialized)
        } else if !is_contract_strkey(strkey) {
            Some(Error::InvalidAssetId)
        } else {
            None
        }
    }

    /// Sets the admin and the escrowed token, given with its strkey, which
    /// must be that of a contract. Refused once initialized.
    pub fn init(&mut self, now: u64, admin: Address, token: Address, token_strkey: &[u8]) -> (out: Outcome<()>)
        requires
            old(self).wf(),
        ensures
            index_extended(*old(self), *final(self)),
            final(self).wf(),
            out.result is Ok <==> old(self).init_error(token_strkey@) is None,
            out.result matches Err(e) ==> old(self).init_error(token_strkey@) == Some(e),
            out.result is Err ==> *final(self) == *old(self),
            out.result is Err ==> out.transfers@.len() == 0 && out.events@.len() == 0,
            out.auths@.len() == 0,
            out.transfers@.len() == 0,
            out.result is Ok ==> final(self).config == (Config { admin: Some(admin), token: Some(token), ..old(self).config }),
            out.result is Ok ==> out.events@ == seq![Event::Initialized { admin, token, timestamp: now }],
            final(self).same_but_settings(old(self)),
    {
        if self.config.admin.is_some() {
            return Outcome::fail_early(Error::AlreadyInitialized);
        }
        let normalized = match normalize_asset_id(token, token_strkey) {
            Ok(t) => t,
            Err(_) => {
                return Outcome::fail_early(Error::InvalidAssetId);
            },
        };
        self.config.admin = Some(admin);
        self.config.token = Some(normalized);
        let mut events = Vec::new();
        events.push(Event::Initialized { admin, token: normalized, timestamp: now });
        Outcome { result: Ok(()), auths: Vec::new(), transfers: Vec::new(), events }
    }

    /// Initializes as [`Self::init`] does and also records the chain and
    /// network identifiers, which never change afterwards.
    pub fn init_with_network(&mut self, now: u64, admin: Address, token: Address, token_strkey: &[u8], chain_id: String, network_id: String) -> (out: Outcome<()>)
        requires
            old(self).wf(),
        ensures
            index_extended(*old(self), *final(self)),
            final(self).wf(),
            out.result is Ok <==> old(self).init_error(token_strkey@) is None,
            out.result matches Err(e) ==> old(self).init_error(token_strkey@) == Some(e),
            out.result is Err ==> *final(self) == *old(self),
            out.result is Err ==> out.transfers@.len() == 0 && out.events@.len() == 0,
            out.auths@.len() == 0,
            out.transfers@.len() == 0,
            out.result is Ok ==> final(self).config == (Config {
                admin: Some(admin),
                token: Some(token),
                chain_id: Some(chain_id),
                network_id: Some(network_id),
                ..old(self).config
            }),
            out.result is Ok ==> out.events@ == seq![Event::Initialized { admin, token, timestamp: now }],
            final(self).same_but_settings(old(self)),
    {
        if self.config.admin.is_some() {
            return Outcome::fail_early(Error::AlreadyInitialized);
        }
        let normalized = match normalize_asset_id(token, token_strkey) {
            Ok(t) => t,
            Err(_) => {
                return Outcome::fail_early(Error::InvalidAssetId);
            },
        };
        self.config.admin = Some(admin);
        self.config.token = Some(normalized);
        self.config.chain_id = Some(chain_id);
        self.config.network_id = Some(network_id);
        let mut events = Vec::new();
        events.push(Event::Initialized { admin, token: normalized, timestamp: now });
        Outcome { result: Ok(()), auths: Vec::new(), transfers: Vec::new(), events }
    }

    /// The error, if any, of updating the fee configuration.
    pub open spec fn fee_update_error(&self, lock_fee_rate: Option<i128>, release_fee_rate: Option<i128>) -> Option<Error> {
        if !self.initialized() {
            Some(Error::NotInitialized)
        } else if lock_fee_rate matches Some(r) && !(0 <= r <= MAX_FEE_RATE) {
            Some(Error::InvalidFeeRate)
        } else if release_fee_rate matches Some(r) && !(0 <= r <= MAX_FEE_RATE) {
            Some(Error::InvalidFeeRate)
        } else {
            None
        }
    }

    /// The fee configuration after an update: each given setting replaces
    /// the one in force.
    pub open spec fn updated_fee_config(&self, lock_fee_rate: Option<i128>, release_fee_rate: Option<i128>, fee_recipient: Option<Address>, fee_enabled: Option<bool>) -> FeeConfig {
        let c = self.fee_config_of();
        FeeConfig {
            lock_fee_rate: match lock_fee_rate { Some(r) => r, None => c.lock_fee_rate },
            release_fee_rate: match release_fee_rate { Some(r) => r, None => c.release_fee_rate },
            fee_recipient: match fee_recipient { Some(a) => a, None => c.fee_recipient },
            fee_enabled: match fee_enabled { Some(b) => b, None => c.fee_enabled },
        }
    }

    /// Updates the given fee settings (admin only); rates must lie in
    /// `[0, MAX_FEE_RATE]`.
    pub fn update_fee_config(&mut self, now: u64, lock_fee_rate: Option<i128>, release_fee_rate: Option<i128>, fee_recipient: Option<Address>, fee_enabled: Option<bool>) -> (out: Outcome<()>)
        requires
            old(self).wf(),
        ensures
            index_extended(*old(self), *final(self)),
            final(self).wf(),
            out.result is Ok <==> old(self).fee_update_error(lock_fee_rate, release_fee_rate) is None,
            out.result matches Err(e) ==> old(self).fee_update_error(lock_fee_rate, release_fee_rate) == Some(e),
            out.result is Err ==> *final(self) == *old(self),
            out.result is Err ==> out.transfers@.len() == 0 && out.events@.len() == 0,
            out.auths@ == (if old(self).initialized() { seq![old(self).config.admin->0] } else { Seq::<Address>::empty() }),
            out.transfers@.len() == 0,
            out.result is Ok ==> {
                let c = old(self).updated_fee_config(lock_fee_rate, release_fee_rate, fee_recipient, fee_enabled);
                &&& final(self).config == (Config { fee_config: Some(c), ..old(self).config })
                &&& out.events@ == seq![Event::FeeConfigUpdated {
                    lock_fee_rate: c.lock_fee_rate,
                    release_fee_rate: c.release_fee_rate,
                    fee_recipient: c.fee_recipient,
                    fee_enabled: c.fee_enabled,
                    timestamp: now,
                }]
            },
            final(self).same_but_settings(old(self)),
    {
        let admin = match self.config.admin {
            Some(a) => a,
            None => {
                return Outcome::fail_early(Error::NotInitialized);
            },
        };
        let auths = auth_of(admin);
        let mut c = self.get_fee_config_internal();
        if let Some(r) = lock_fee_rate {
            if !(0 <= r && r <= MAX_FEE_RATE) {
                return Outcome::fail(Error::InvalidFeeRate, auths);
            }
            c.lock_fee_rate = r;
        }
        if let Some(r) = release_fee_rate {
            if !(0 <= r && r <= MAX_FEE_RATE) {
                return Outcome::fail(Error::InvalidFeeRate, auths);
            }
            c.release_fee_rate = r;
        }
        if let Some(a) = fee_recipient {
            c.fee_recipient = a;
        }
        if let Some(b) = fee_enabled {
            c.fee_enabled = b;
        }
        self.config.fee_config = Some(c);
        let mut events = Vec::new();
        events.push(Event::FeeConfigUpdated {
            lock_fee_rate: c.lock_fee_rate,
            release_fee_rate: c.release_fee_rate,
            fee_recipient: c.fee_recipient,
            fee_enabled: c.fee_enabled,
            timestamp: now,
        });
        Outcome { result: Ok(()), auths, transfers: Vec::new(), events }
    }
}

} // verus!
