//! The registry of signatures that have been used.
//!
//! A signature authorises one registration. Once it has done so it is
//! recorded, and the record is never taken back: a signature that is in the
//! registry is refused from then on, whatever it is presented with.

use crate::error::ContractError;
use crate::storage::map_has;
use crate::storage::map_save;
use crate::storage::new_storage;
use crate::storage::stored_keys;
use crate::storage::MAX_NAMESPACE_LEN;
use cosmwasm_std::MemoryStorage;
use cosmwasm_std::StdError;
use vstd::prelude::*;
use vstd::string::*;

verus! {

/// The namespace of the registry in the store.
pub const SIGNATURE_NAMESPACE: &'static str = "signature";

/// The registry. Its view is the set of the signatures recorded in it.
pub struct ReplayGuard {
    store: MemoryStorage,
}

impl View for ReplayGuard {
    type V = Set<Seq<u8>>;

    closed spec fn view(&self) -> Set<Seq<u8>> {
        stored_keys(self.store, SIGNATURE_NAMESPACE@)
    }
}

/// What the store's answer to a write means to the caller: the store's
/// error, if there is one, is passed on as it is.
pub open spec fn storage_verdict_of(saved: Result<(), StdError>) -> Result<(), ContractError> {
    match saved {
        Ok(()) => Ok(()),
        Err(error) => Err(ContractError::Std(error)),
    }
}

/// Turns the store's answer to a write into the caller's result.
pub fn storage_verdict(saved: Result<(), StdError>) -> (verdict: Result<(), ContractError>)
    ensures
        verdict == storage_verdict_of(saved),
{
    match saved {
        Ok(()) => Ok(()),
        Err(error) => Err(ContractError::from(error)),
    }
}

/// What a look into the registry means to the caller: a signature found
/// there is refused.
pub open spec fn replay_verdict_of(consumed: bool) -> Result<(), ContractError> {
    if consumed {
        Err(ContractError::SigntaureAlreadyExists {  })
    } else {
        Ok(())
    }
}

/// Turns the answer of a look into the registry into the caller's result.
pub fn replay_verdict(consumed: bool) -> (verdict: Result<(), ContractError>)
    ensures
        verdict == replay_verdict_of(consumed),
{
    if consumed {
        Err(ContractError::SigntaureAlreadyExists {  })
    } else {
        Ok(())
    }
}

proof fn lemma_namespace_is_short()
    ensures
        SIGNATURE_NAMESPACE.spec_bytes().len() <= MAX_NAMESPACE_LEN,
{
    reveal_strlit("signature");
    assert(is_ascii(SIGNATURE_NAMESPACE));
    is_ascii_spec_bytes(SIGNATURE_NAMESPACE);
}

impl ReplayGuard {
    /// A registry in which no signature is recorded.
    pub fn new() -> (guard: ReplayGuard)
        ensures
            guard@ == Set::<Seq<u8>>::empty(),
    {
        ReplayGuard { store: new_storage() }
    }

    /// Whether `signature` is recorded.
    pub fn is_consumed(&self, signature: &[u8]) -> (consumed: bool)
        ensures
            consumed == self@.contains(signature@),
    {
        proof {
            lemma_namespace_is_short();
        }
        map_has(&self.store, SIGNATURE_NAMESPACE, signature)
    }

    /// Records `signature`. This always succeeds: afterwards the registry
    /// holds `signature` and all that it held before. Recording one that is
    /// recorded already changes nothing.
    pub fn mark_consumed(&mut self, signature: &[u8]) -> (result: Result<(), ContractError>)
        ensures
            result == Ok::<(), ContractError>(()),
            final(self)@ == old(self)@.insert(signature@),
    {
        proof {
            lemma_namespace_is_short();
        }
        let saved = map_save(&mut self.store, SIGNATURE_NAMESPACE, signature, true);
        storage_verdict(saved)
    }
}

} // verus!
