//! The hash functions of the signing convention and of the two address
//! schemes. The digests are computed by the `sha2`, `ripemd` and `sha3`
//! crates; this module gives each digest a name and states its length.

use ripemd::Ripemd160;
use sha2::Digest;
use sha2::Sha256;
use sha3::Keccak256;
use vstd::prelude::*;

verus! {

/// The SHA-256 digest of `data`, as `sha2::Sha256` computes it.
pub uninterp spec fn sha256_digest(data: Seq<u8>) -> Seq<u8>;

/// The RIPEMD-160 digest of `data`, as `ripemd::Ripemd160` computes it.
pub uninterp spec fn ripemd160_digest(data: Seq<u8>) -> Seq<u8>;

/// The Keccak-256 digest of `data`, as `sha3::Keccak256` computes it: Keccak
/// as it was submitted, with its own padding, not that of SHA3-256.
pub uninterp spec fn keccak256_digest(data: Seq<u8>) -> Seq<u8>;

/// Calls `<sha2::Sha256 as Digest>::digest`. Trusted: the digest depends on
/// `data` alone and is 32 bytes long, which is the hasher's output type.
#[verifier::external_body]
pub(crate) fn sha256(data: &[u8]) -> (digest: Vec<u8>)
    ensures
        digest@ == sha256_digest(data@),
        digest@.len() == 32,
{
    Sha256::digest(data).to_vec()
}

/// Calls `<ripemd::Ripemd160 as Digest>::digest`. Trusted: the digest depends
/// on `data` alone and is 20 bytes long, which is the hasher's output type.
#[verifier::external_body]
pub(crate) fn ripemd160(data: &[u8]) -> (digest: Vec<u8>)
    ensures
        digest@ == ripemd160_digest(data@),
        digest@.len() == 20,
{
    Ripemd160::digest(data).to_vec()
}

/// Calls `<sha3::Keccak256 as Digest>::digest`. Trusted: the digest depends
/// on `data` alone and is 32 bytes long, which is the hasher's output type.
#[verifier::external_body]
pub(crate) fn keccak256(data: &[u8]) -> (digest: Vec<u8>)
    ensures
        digest@ == keccak256_digest(data@),
        digest@.len() == 32,
{
    Keccak256::digest(data).to_vec()
}

} // verus!
