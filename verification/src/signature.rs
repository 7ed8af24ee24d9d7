//! Verifying a signature over the signed text.

use crate::digest::sha256;
use crate::digest::sha256_digest;
use crate::error::ContractError;
use crate::secp256k1::sec1_shaped;
use crate::secp256k1::secp256k1_outcome;
use crate::secp256k1::secp256k1_verify;
use vstd::prelude::*;
use vstd::string::*;
use vstd::utf8::*;

verus! {

/// The number of bytes of a signature: two scalars of 32 bytes each.
pub const SIGNATURE_LEN: usize = 64;

/// What the outcome of the curve primitive means to the caller: success
/// when the primitive said yes, and one and the same error when it said no
/// or refused an input.
pub open spec fn verdict_of(outcome: Option<bool>) -> Result<(), ContractError> {
    if outcome == Some(true) {
        Ok(())
    } else {
        Err(ContractError::SignatureMisMatch {  })
    }
}

/// What is signed in place of `message`: the SHA-256 digest of the text's
/// UTF-8 bytes.
pub open spec fn message_digest(message: Seq<char>) -> Seq<u8> {
    sha256_digest(encode_utf8(message))
}

/// The number of bytes of the digest that is signed.
pub const MESSAGE_HASH_LEN: usize = 32;

/// What verifying `signature` over the digest `message_hash` under
/// `public_key` gives: the verdict of the curve primitive.
pub open spec fn digest_result(
    message_hash: Seq<u8>,
    signature: Seq<u8>,
    public_key: Seq<u8>,
) -> Result<(), ContractError> {
    verdict_of(secp256k1_outcome(message_hash, signature, public_key))
}

/// What verifying `signature` over `message` under `public_key` gives: the
/// verdict of the curve primitive on the digest of the text.
pub open spec fn signature_result(
    message: Seq<char>,
    signature: Seq<u8>,
    public_key: Seq<u8>,
) -> Result<(), ContractError> {
    digest_result(message_digest(message), signature, public_key)
}

/// Computes what is signed in place of `message`.
pub fn message_hash(message: &str) -> (digest: Vec<u8>)
    ensures
        digest@ == message_digest(message@),
        digest@.len() == MESSAGE_HASH_LEN,
{
    sha256(message.as_bytes())
}

/// Turns the outcome of the curve primitive into the caller's result. Only
/// an explicit yes is a success.
pub fn signature_verdict(outcome: Option<bool>) -> (verdict: Result<(), ContractError>)
    ensures
        verdict == verdict_of(outcome),
{
    match outcome {
        Some(true) => Ok(()),
        _ => Err(ContractError::SignatureMisMatch {  }),
    }
}

/// Verifies `signature` over the digest `message_hash` under `public_key`.
/// A signature that is not `SIGNATURE_LEN` bytes long, or a key that has not
/// the shape of a SEC1 encoding, is never accepted.
pub fn verify_digest(message_hash: &[u8], signature: &[u8], public_key: &[u8]) -> (verdict: Result<
    (),
    ContractError,
>)
    ensures
        verdict == digest_result(message_hash@, signature@, public_key@),
        verdict is Ok ==> signature@.len() == SIGNATURE_LEN && sec1_shaped(public_key@),
{
    signature_verdict(secp256k1_verify(message_hash, signature, public_key))
}

/// Verifies `signature` over `message` under `public_key`. A signature that
/// is not `SIGNATURE_LEN` bytes long, or a key that has not the shape of a
/// SEC1 encoding, is never accepted.
pub fn verify(message: &str, signature: &[u8], public_key: &[u8]) -> (verdict: Result<
    (),
    ContractError,
>)
    ensures
        verdict == signature_result(message@, signature@, public_key@),
        verdict is Ok ==> signature@.len() == SIGNATURE_LEN && sec1_shaped(public_key@),
{
    let digest = message_hash(message);
    verify_digest(digest.as_slice(), signature, public_key)
}

/// Only a yes of the curve primitive is accepted. Whatever signature and key
/// are presented, in place of others or not, verification succeeds exactly
/// where the primitive says yes on them, and it fails with one and the same
/// error where the primitive says no and where it refuses an input.
pub proof fn lemma_only_yes_is_accepted(
    message: Seq<char>,
    signature: Seq<u8>,
    public_key: Seq<u8>,
)
    ensures
        signature_result(message, signature, public_key) is Ok <==> secp256k1_outcome(
            message_digest(message),
            signature,
            public_key,
        ) == Some(true),
        signature_result(message, signature, public_key) is Err ==> signature_result(
            message,
            signature,
            public_key,
        ) == Err::<(), ContractError>(ContractError::SignatureMisMatch {  }),
{
}

} // verus!
