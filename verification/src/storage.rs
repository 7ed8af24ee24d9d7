//! The key/value store that holds the library's persistent state, and the
//! namespaced maps of `cw_storage_plus` over it.

use cosmwasm_std::MemoryStorage;
use cosmwasm_std::StdError;
use vstd::prelude::*;
use vstd::string::*;

verus! {

/// `cosmwasm_std::MemoryStorage`, a key/value store of byte strings.
#[verifier::external_type_specification]
#[verifier::external_body]
pub struct ExMemoryStorage(MemoryStorage);

/// The keys under which the map named `namespace` holds an entry in `store`.
pub uninterp spec fn stored_keys(store: MemoryStorage, namespace: Seq<char>) -> Set<Seq<u8>>;

/// The longest namespace, in bytes, that `cw_storage_plus` can prefix keys
/// with: it writes the length in two bytes.
pub const MAX_NAMESPACE_LEN: usize = 0xFFFF;

/// Calls `MemoryStorage::new`. Trusted: a new store holds no entry, under
/// any namespace.
#[verifier::external_body]
pub(crate) fn new_storage() -> (store: MemoryStorage)
    ensures
        forall|namespace: Seq<char>| #[trigger] stored_keys(store, namespace) == Set::<Seq<u8>>::empty(),
{
    MemoryStorage::new()
}

/// Calls `cw_storage_plus::Map::has` on the map `namespace` of byte-string
/// keys. Trusted: it tells whether the store holds an entry under `key`,
/// without reading the entry. Building the map's key panics for a namespace
/// longer than `MAX_NAMESPACE_LEN`, so those are left out.
#[verifier::external_body]
pub(crate) fn map_has(store: &MemoryStorage, namespace: &str, key: &[u8]) -> (found: bool)
    requires
        namespace.spec_bytes().len() <= MAX_NAMESPACE_LEN,
    ensures
        found == stored_keys(*store, namespace@).contains(key@),
{
    cw_storage_plus::Map::<&[u8], bool>::new(namespace).has(store, key)
}

/// Calls `cw_storage_plus::Map::save` on the map `namespace` of byte-string
/// keys and `bool` values. Trusted: the call succeeds, and afterwards the map
/// holds an entry under `key` and its other keys are as before. An error
/// could only come from serialising `value`, and a `bool` is written as one
/// of two fixed words, which cannot fail. Building the map's key panics for
/// a namespace longer than `MAX_NAMESPACE_LEN`, so those are left out.
#[verifier::external_body]
pub(crate) fn map_save(store: &mut MemoryStorage, namespace: &str, key: &[u8], value: bool) -> (saved:
    Result<(), StdError>)
    requires
        namespace.spec_bytes().len() <= MAX_NAMESPACE_LEN,
    ensures
        saved is Ok,
        stored_keys(*final(store), namespace@) == stored_keys(*old(store), namespace@).insert(
            key@,
        ),
{
    cw_storage_plus::Map::<&[u8], bool>::new(namespace).save(store, key, &value)
}

} // verus!
