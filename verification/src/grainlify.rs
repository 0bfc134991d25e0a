//! The core contract's administration and version bookkeeping.
//!
//! A version is stored as a number. Values from 10 000 on encode
//! `major * 10 000 + minor * 100 + patch`; smaller nonzero values are legacy
//! major versions, read as `major.0.0`; 0 means that no version is stored.

use vstd::prelude::*;
use crate::types::Address;

verus! {

/// The version that initialization stores.
pub const VERSION: u32 = 2;

/// The errors of the core contract.
#[derive(Copy, Clone, Debug, PartialEq, Eq, Structural)]
pub enum ContractError {
    AlreadyInitialized,
    NotInitialized,
    /// The stored version is below the required minimum.
    VersionTooLow,
}

/// A code upgrade to perform: the hash of the new code and the address
/// that must authorize it.
#[derive(Copy, Clone, Debug)]
pub struct WasmUpgrade {
    pub authorizer: Address,
    pub wasm_hash: [u8; 32],
}

/// The core contract's state: its administrator and stored version.
pub struct GrainlifyContract {
    pub admin: Option<Address>,
    pub version: Option<u32>,
}

/// The encoded form of a stored version: 0 stays 0, a legacy major version
/// `v < 10 000` becomes `v * 10 000` (which always fits), an encoded value
/// is kept.
pub open spec fn encoded_version(v: u32) -> u32 {
    if v == 0 {
        0
    } else if v < 10000 {
        (v * 10000) as u32
    } else {
        v
    }
}

/// The ASCII decimal digits of `n`, without leading zeros.
pub open spec fn decimal(n: nat) -> Seq<u8>
    decreases n,
{
    if n < 10 {
        seq![(48 + n) as u8]
    } else {
        decimal(n / 10).push((48 + n % 10) as u8)
    }
}

/// The text `major.minor.patch` of an encoded version.
pub open spec fn semver_text(e: u32) -> Seq<u8> {
    decimal((e / 10000) as nat) + seq![46u8] + decimal(((e / 100) % 100) as nat) + seq![46u8]
        + decimal((e % 100) as nat)
}

/// Appends the decimal digits of `n` to `out`.
pub fn push_decimal(out: &mut Vec<u8>, n: u32)
    ensures
        final(out)@ == old(out)@ + decimal(n as nat),
    decreases n,
{
    if n >= 10 {
        push_decimal(out, n / 10);
    }
    let digit: u8 = (n % 10) as u8;
    out.push(48u8 + digit);
    proof {
        assert(final(out)@ =~= old(out)@ + decimal(n as nat));
    }
}

impl GrainlifyContract {
    /// A contract that was not initialized.
    pub fn new() -> (c: GrainlifyContract)
        ensures
            c.admin is None,
            c.version is None,
    {
        GrainlifyContract { admin: None, version: None }
    }

    /// The stored version, 0 when none is stored.
    pub open spec fn stored_version(&self) -> u32 {
        match self.version {
            Some(v) => v,
            None => 0,
        }
    }

    /// Sets the administrator and stores [`VERSION`]; refused once an
    /// administrator is set.
    pub fn init(&mut self, admin: Address) -> (r: Result<(), ContractError>)
        ensures
            old(self).admin is Some ==> r == Err::<(), ContractError>(ContractError::AlreadyInitialized)
                && *final(self) == *old(self),
            old(self).admin is None ==> r is Ok && final(self).admin == Some(admin)
                && final(self).version == Some(VERSION),
    {
        if self.admin.is_some() {
            return Err(ContractError::AlreadyInitialized);
        }
        self.admin = Some(admin);
        self.version = Some(VERSION);
        Ok(())
    }

    /// [`GrainlifyContract::init`] under the name that clients use.
    pub fn init_admin(&mut self, admin: Address) -> (r: Result<(), ContractError>)
        ensures
            old(self).admin is Some ==> r == Err::<(), ContractError>(ContractError::AlreadyInitialized)
                && *final(self) == *old(self),
            old(self).admin is None ==> r is Ok && final(self).admin == Some(admin)
                && final(self).version == Some(VERSION),
    {
        self.init(admin)
    }

    /// The upgrade to `new_wasm_hash`, to be authorized by the administrator.
    pub fn upgrade(&self, new_wasm_hash: [u8; 32]) -> (r: Result<WasmUpgrade, ContractError>)
        ensures
            self.admin is None ==> r == Err::<WasmUpgrade, ContractError>(ContractError::NotInitialized),
            self.admin matches Some(a) ==> r == Ok::<WasmUpgrade, ContractError>(
                WasmUpgrade { authorizer: a, wasm_hash: new_wasm_hash }),
    {
        match self.admin {
            Some(a) => Ok(WasmUpgrade { authorizer: a, wasm_hash: new_wasm_hash }),
            None => Err(ContractError::NotInitialized),
        }
    }

    /// The stored version, 0 when none is stored.
    pub fn get_version(&self) -> (v: u32)
        ensures
            v == self.stored_version(),
    {
        match self.version {
            Some(v) => v,
            None => 0,
        }
    }

    /// The administrator stores `new_version`; returns the address whose
    /// authorization this needs.
    pub fn set_version(&mut self, new_version: u32) -> (r: Result<Address, ContractError>)
        ensures
            old(self).admin is None ==> r == Err::<Address, ContractError>(ContractError::NotInitialized)
                && *final(self) == *old(self),
            old(self).admin matches Some(a) ==> r == Ok::<Address, ContractError>(a)
                && final(self).admin == old(self).admin && final(self).version == Some(new_version),
    {
        match self.admin {
            Some(a) => {
                self.version = Some(new_version);
                Ok(a)
            },
            None => Err(ContractError::NotInitialized),
        }
    }

    /// The stored version in encoded form.
    pub fn get_version_numeric_encoded(&self) -> (e: u32)
        ensures
            e == encoded_version(self.stored_version()),
    {
        let v = self.get_version();
        if v == 0 {
            0
        } else if v < 10000 {
            v * 10000
        } else {
            v
        }
    }

    /// The stored version as `major.minor.patch` text.
    pub fn get_version_semver_string(&self) -> (s: Vec<u8>)
        ensures
            s@ == semver_text(encoded_version(self.stored_version())),
    {
        let e = self.get_version_numeric_encoded();
        let mut s: Vec<u8> = Vec::new();
        push_decimal(&mut s, e / 10000);
        s.push(46u8);
        push_decimal(&mut s, (e / 100) % 100);
        s.push(46u8);
        push_decimal(&mut s, e % 100);
        proof {
            assert(s@ =~= semver_text(e));
        }
        s
    }

    /// Refuses when no version is stored, or when the encoded version is
    /// below `min_version`.
    pub fn require_min_version(&self, min_version: u32) -> (r: Result<(), ContractError>)
        ensures
            self.stored_version() == 0 ==> r == Err::<(), ContractError>(ContractError::NotInitialized),
            self.stored_version() != 0 && encoded_version(self.stored_version()) < min_version
                ==> r == Err::<(), ContractError>(ContractError::VersionTooLow),
            r is Ok <==> self.stored_version() != 0 && encoded_version(self.stored_version()) >= min_version,
    {
        let v = self.get_version();
        if v == 0 {
            return Err(ContractError::NotInitialized);
        }
        if self.get_version_numeric_encoded() < min_version {
            return Err(ContractError::VersionTooLow);
        }
        Ok(())
    }
}

} // verus!
