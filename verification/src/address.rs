//! From a public key to an address.
//!
//! Two schemes are in use. Both hash the key down to twenty bytes and write
//! those in bech32 under the prefix of the chain; they differ in the hash.

use crate::codec::bech32_encode;
use crate::codec::bech32_length;
use crate::codec::bech32_text;
use crate::codec::starts_with_hrp;
use crate::digest::keccak256;
use crate::digest::keccak256_digest;
use crate::digest::ripemd160;
use crate::digest::ripemd160_digest;
use crate::digest::sha256;
use crate::digest::sha256_digest;
use crate::error::ContractError;
use vstd::prelude::*;
use vstd::slice::slice_subrange;
use vstd::string::*;
use vstd::utf8::*;

verus! {

/// The scheme by which an address is derived from a public key.
#[derive(Debug, Clone, Copy, PartialEq, Eq, Structural)]
pub enum HashScheme {
    /// RIPEMD-160 of SHA-256 of the key.
    Cosmos,
    /// The last twenty bytes of Keccak-256 of the key without its first byte.
    Ethereum,
}

/// The number of bytes that an address stands for.
pub const ADDRESS_LEN: usize = 20;

/// The shortest public key from which the Ethereum scheme derives an
/// address: the format marker and one byte behind it.
pub const MIN_ETHEREUM_KEY_LEN: usize = 2;

/// The bytes of the Cosmos address of `pub_key`.
pub open spec fn cosmos_address_bytes(pub_key: Seq<u8>) -> Seq<u8> {
    ripemd160_digest(sha256_digest(pub_key))
}

/// The last `count` bytes of `bytes`, or all of them where there are fewer.
pub open spec fn last_bytes(bytes: Seq<u8>, count: nat) -> Seq<u8> {
    if bytes.len() <= count {
        bytes
    } else {
        bytes.skip(bytes.len() - count)
    }
}

/// The bytes of the Ethereum address of `pub_key`: the first byte of the
/// key, which marks its format, is left out of the hash, and of the digest
/// the last `ADDRESS_LEN` bytes are kept, not the first.
pub open spec fn ethereum_address_bytes(pub_key: Seq<u8>) -> Seq<u8> {
    last_bytes(keccak256_digest(pub_key.skip(1)), ADDRESS_LEN as nat)
}

/// Whether an address under `bech32_prefix` is short enough for its length
/// to fit in a `usize`.
pub open spec fn prefix_fits(bech32_prefix: Seq<char>) -> bool {
    bech32_length(encode_utf8(bech32_prefix).len(), ADDRESS_LEN as nat) <= usize::MAX
}

/// The bytes of the address that `scheme` derives from `pub_key`, or `None`
/// where the key is too short for the scheme.
pub open spec fn address_bytes(scheme: HashScheme, pub_key: Seq<u8>) -> Option<Seq<u8>> {
    match scheme {
        HashScheme::Cosmos => Some(cosmos_address_bytes(pub_key)),
        HashScheme::Ethereum => if pub_key.len() < MIN_ETHEREUM_KEY_LEN {
            None
        } else {
            Some(ethereum_address_bytes(pub_key))
        },
    }
}

/// The address that `scheme` derives from `pub_key` under `bech32_prefix`,
/// or `None` where the key is too short for the scheme.
pub open spec fn derived_address(
    scheme: HashScheme,
    pub_key: Seq<u8>,
    bech32_prefix: Seq<char>,
) -> Option<Seq<char>> {
    match address_bytes(scheme, pub_key) {
        Some(bytes) => Some(bech32_text(bech32_prefix, bytes)),
        None => None,
    }
}

/// Whether `text` has the form of an address under `bech32_prefix`: the
/// prefix, the separator, and behind them the characters that stand for
/// `ADDRESS_LEN` bytes and their checksum.
pub open spec fn is_address_under(text: Seq<char>, bech32_prefix: Seq<char>) -> bool {
    &&& starts_with_hrp(text, bech32_prefix)
    &&& text.len() == bech32_length(bech32_prefix.len(), ADDRESS_LEN as nat)
}

/// Whether `result` is what deriving an address gives when the derivation
/// itself gives `address`: the address, or `InvalidPublicKey` where there is
/// none.
pub open spec fn is_derivation_result(
    result: Result<String, ContractError>,
    address: Option<Seq<char>>,
) -> bool {
    match address {
        Some(text) => result matches Ok(derived) && derived@ == text,
        None => result == Err::<String, ContractError>(ContractError::InvalidPublicKey {  }),
    }
}

/// Tells whether an address under `bech32_prefix` is short enough for its
/// length to fit in a `usize`, which the functions that derive addresses
/// ask of their callers.
pub fn prefix_is_encodable(bech32_prefix: &str) -> (fits: bool)
    ensures
        fits == prefix_fits(bech32_prefix@),
{
    let overhead: usize = 1 + (8 * ADDRESS_LEN + 4) / 5 + 6;
    bech32_prefix.as_bytes().len() <= usize::MAX - overhead
}

/// The part of a digest that an Ethereum address stands for: its last
/// `ADDRESS_LEN` bytes.
pub fn ethereum_digest_tail(digest: &[u8]) -> (tail: &[u8])
    ensures
        tail@ == last_bytes(digest@, ADDRESS_LEN as nat),
{
    if digest.len() <= ADDRESS_LEN {
        digest
    } else {
        slice_subrange(digest, digest.len() - ADDRESS_LEN, digest.len())
    }
}

/// Derives the Cosmos address of `pub_key` under `bech32_prefix`.
pub fn cosmos_pubkey_to_bech32_address(pub_key: Vec<u8>, bech32_prefix: String) -> (address: String)
    requires
        prefix_fits(bech32_prefix@),
    ensures
        Some(address@) == derived_address(HashScheme::Cosmos, pub_key@, bech32_prefix@),
        cosmos_address_bytes(pub_key@).len() == ADDRESS_LEN,
        is_address_under(address@, bech32_prefix@),
{
    let hashed = sha256(pub_key.as_slice());
    let result = ripemd160(hashed.as_slice());
    bech32_encode(bech32_prefix.as_str(), result.as_slice())
}

/// Derives the Ethereum address of `pub_key` under `bech32_prefix`. The key
/// is expected in uncompressed form, format marker first; one shorter than
/// `MIN_ETHEREUM_KEY_LEN` is refused.
pub fn eth_pubkey_to_bech32_address(pub_key: Vec<u8>, bech32_prefix: String) -> (result: Result<
    String,
    ContractError,
>)
    requires
        prefix_fits(bech32_prefix@),
    ensures
        is_derivation_result(
            result,
            derived_address(HashScheme::Ethereum, pub_key@, bech32_prefix@),
        ),
        pub_key@.len() >= MIN_ETHEREUM_KEY_LEN ==> ethereum_address_bytes(pub_key@).len()
            == ADDRESS_LEN,
        result matches Ok(address) ==> is_address_under(address@, bech32_prefix@),
{
    if pub_key.len() < MIN_ETHEREUM_KEY_LEN {
        return Err(ContractError::InvalidPublicKey {  });
    }
    let xy = slice_subrange(pub_key.as_slice(), 1, pub_key.len());
    let digest = keccak256(xy);
    let hashed = ethereum_digest_tail(digest.as_slice());
    Ok(bech32_encode(bech32_prefix.as_str(), hashed))
}

/// Derives the address of `pub_key` under `bech32_prefix` by `scheme`.
pub fn derive_address(scheme: HashScheme, pub_key: Vec<u8>, bech32_prefix: String) -> (result: Result<
    String,
    ContractError,
>)
    requires
        prefix_fits(bech32_prefix@),
    ensures
        is_derivation_result(result, derived_address(scheme, pub_key@, bech32_prefix@)),
        address_bytes(scheme, pub_key@) matches Some(bytes) ==> bytes.len() == ADDRESS_LEN,
        result matches Ok(address) ==> is_address_under(address@, bech32_prefix@),
{
    match scheme {
        HashScheme::Cosmos => Ok(cosmos_pubkey_to_bech32_address(pub_key, bech32_prefix)),
        HashScheme::Ethereum => eth_pubkey_to_bech32_address(pub_key, bech32_prefix),
    }
}

} // verus!
