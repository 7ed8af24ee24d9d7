//! The errors that the library's functions return.

use cosmwasm_std::StdError;
use vstd::prelude::*;
use vstd::std_specs::convert::FromSpecImpl;

verus! {

/// `cosmwasm_std::StdError`, the error of the storage layer. The library
/// never looks inside one: it only carries it to the caller.
#[verifier::external_type_specification]
#[verifier::external_body]
pub struct ExStdError(StdError);

/// Why a request was refused.
#[derive(Debug, PartialEq)]
pub enum ContractError {
    /// An error of the storage layer, passed through unchanged.
    Std(StdError),
    /// The request is not allowed: an administrator was added twice, or one
    /// was removed who is none.
    Unauthorized {},
    /// The store could not be read or written.
    StorageErr {},
    /// The name is registered already.
    UserAlreadyRegistered { name: String },
    /// The address is no bech32 text.
    Bech32DecodingErr { addr: String },
    /// The address was to be derived by a scheme that is not known.
    HashMethodNotSupported {},
    /// The signature is malformed, the public key is malformed, or the
    /// signature does not verify. The three are not told apart.
    SignatureMisMatch {},
    /// The signature has been used before.
    SigntaureAlreadyExists {},
    /// The address does not carry the prefix that was asked for.
    Bech32PrefixMismatch { prefix: String, addr: String },
    /// The name has no address of this kind.
    Bech32AddressNotSet { name: String, address: String },
    /// The primary address of the name was to be removed and none was named
    /// to take its place.
    ReplacePrimaryAddressNotSet { name: String, address: String },
    /// The public key is too short for the requested address derivation.
    InvalidPublicKey {},
}

impl From<StdError> for ContractError {
    fn from(error: StdError) -> (converted: ContractError) {
        ContractError::Std(error)
    }
}

impl FromSpecImpl<StdError> for ContractError {
    open spec fn obeys_from_spec() -> bool {
        true
    }

    open spec fn from_spec(error: StdError) -> ContractError {
        ContractError::Std(error)
    }
}

} // verus!
