//! Asset identifiers: a token used for escrow must be a contract address,
//! whose strkey text is 56 characters long and starts with `C`.

use vstd::prelude::*;
use crate::types::Address;

verus! {

/// Why an asset identifier was refused.
#[derive(Copy, Clone, Debug, PartialEq, Eq, Structural)]
pub enum AssetIdError {
    MustBeContractAddress,
}

impl AssetIdError {
    /// The numeric code under which this error is reported.
    pub fn code(&self) -> (c: u32)
        ensures
            c == 200,
    {
        200
    }
}

/// Length of a strkey-encoded address.
pub const STRKEY_LEN: usize = 56;

/// An asset identifier is acceptable when its strkey is that of a contract.
pub open spec fn is_contract_strkey(strkey: Seq<u8>) -> bool {
    strkey.len() == 56 && strkey[0] == 0x43u8
}

/// Validates that `strkey` (the textual form of an address) denotes a contract.
pub fn validate_asset_id(strkey: &[u8]) -> (r: Result<(), AssetIdError>)
    ensures
        r is Ok <==> is_contract_strkey(strkey@),
        r matches Err(e) ==> e == AssetIdError::MustBeContractAddress,
{
    if strkey.len() != STRKEY_LEN {
        return Err(AssetIdError::MustBeContractAddress);
    }
    if strkey[0] == 0x43u8 {
        Ok(())
    } else {
        Err(AssetIdError::MustBeContractAddress)
    }
}

/// Normalizes an asset identifier given with its strkey: validation, then the
/// identity.
pub fn normalize_asset_id(raw_asset_id: Address, strkey: &[u8]) -> (r: Result<Address, AssetIdError>)
    ensures
        r is Ok <==> is_contract_strkey(strkey@),
        r matches Ok(a) ==> a == raw_asset_id,
        r matches Err(e) ==> e == AssetIdError::MustBeContractAddress,
{
    validate_asset_id(strkey)?;
    Ok(raw_asset_id)
}

} // verus!
