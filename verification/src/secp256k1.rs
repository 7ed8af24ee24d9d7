//! ECDSA verification on the curve secp256k1, as `cosmwasm_std` offers it.

use cosmwasm_std::testing::MockApi;
use cosmwasm_std::Api;
use vstd::prelude::*;

verus! {

/// What the verification of `signature` over `message_hash` under
/// `public_key` gives: `Some(true)` when the signature verifies,
/// `Some(false)` when it is well formed and does not, `None` when the
/// primitive rejects one of the three inputs.
pub uninterp spec fn secp256k1_outcome(
    message_hash: Seq<u8>,
    signature: Seq<u8>,
    public_key: Seq<u8>,
) -> Option<bool>;

/// Whether `public_key` has the shape of a SEC1 point encoding: 33 bytes
/// that start with 2 or 3 (compressed), or 65 bytes that start with 4
/// (uncompressed).
pub open spec fn sec1_shaped(public_key: Seq<u8>) -> bool {
    ||| public_key.len() == 33 && (public_key[0] == 2 || public_key[0] == 3)
    ||| public_key.len() == 65 && public_key[0] == 4
}

/// Calls `Api::secp256k1_verify` on `cosmwasm_std::testing::MockApi`, which
/// hands the three inputs to `cosmwasm_crypto::secp256k1_verify`, and turns
/// an error into `None`. Trusted: the outcome depends on the three inputs
/// alone, and the primitive returns an error, before any curve arithmetic,
/// unless the signature has 64 bytes and the public key has the shape of a
/// SEC1 encoding.
#[verifier::external_body]
pub(crate) fn secp256k1_verify(message_hash: &[u8], signature: &[u8], public_key: &[u8]) -> (outcome:
    Option<bool>)
    ensures
        outcome == secp256k1_outcome(message_hash@, signature@, public_key@),
        outcome is Some ==> signature@.len() == 64 && sec1_shaped(public_key@),
{
    MockApi::default().secp256k1_verify(message_hash, signature, public_key).ok()
}

} // verus!
