//! The version interface that escrow contracts share.

use vstd::prelude::*;
use crate::state::BountyEscrowContract;

verus! {

/// Version management shared by the escrow contracts.
pub trait UpgradeInterface {
    /// The contract version.
    fn get_version(&self) -> u32;

    /// Records a new contract version.
    fn set_version(&self, new_version: u32) -> Result<(), String>;
}

impl UpgradeInterface for BountyEscrowContract {
    /// The escrow is at version 1.
    fn get_version(&self) -> (v: u32)
        ensures
            v == 1,
    {
        1
    }

    /// Version changes are reserved: the request is accepted and nothing
    /// is recorded.
    fn set_version(&self, new_version: u32) -> (r: Result<(), String>)
        ensures
            r is Ok,
    {
        Ok(())
    }
}

} // verus!
