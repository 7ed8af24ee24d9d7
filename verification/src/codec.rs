//! The two text encodings of binary data that the library uses: base64 for
//! the signed payload, bech32 for addresses. Both are computed by outside
//! crates; this module gives each encoding a name.

use vstd::prelude::*;
use vstd::string::*;

verus! {

/// The base64 encoding of `data`, standard alphabet, padded, as
/// `base64::encode` computes it.
pub uninterp spec fn base64_text(data: Seq<u8>) -> Seq<char>;

/// The bech32 encoding of `data` under the human-readable part `hrp`, in
/// lower case, as `subtle_encoding::bech32::encode` computes it.
pub uninterp spec fn bech32_text(hrp: Seq<char>, data: Seq<u8>) -> Seq<char>;

/// The length of the padded base64 encoding of `len` bytes: four characters
/// for every three bytes begun.
pub open spec fn base64_length(len: nat) -> nat {
    4 * ((len + 2) / 3)
}

/// The length of the bech32 encoding of `data_len` bytes under a
/// human-readable part of length `hrp_len`: the part itself, the separator,
/// one character for every five bits begun, and six characters of checksum.
/// With the part's length in bytes it is the length of the text in bytes,
/// with its length in characters the length of the text in characters.
pub open spec fn bech32_length(hrp_len: nat, data_len: nat) -> nat {
    hrp_len + 1 + (8 * data_len + 4) / 5 + 6
}

/// The separator between the human-readable part of a bech32 text and its
/// data.
pub const BECH32_SEPARATOR: char = '1';

/// Whether `text` starts with `hrp` and the separator behind it.
pub open spec fn starts_with_hrp(text: Seq<char>, hrp: Seq<char>) -> bool {
    &&& text.len() > hrp.len()
    &&& text.take(hrp.len() as int) == hrp
    &&& text[hrp.len() as int] == BECH32_SEPARATOR
}

/// Calls `base64::encode`. Trusted: the text depends on `data` alone and has
/// the length that the call computes for its buffer. The call panics when
/// that length does not fit in a `usize`, so such inputs are left out.
#[verifier::external_body]
pub(crate) fn base64_encode(data: &[u8]) -> (text: String)
    requires
        base64_length(data@.len()) <= usize::MAX,
    ensures
        text@ == base64_text(data@),
        text@.len() == base64_length(data@.len()),
{
    base64::encode(data)
}

/// Calls `subtle_encoding::bech32::encode`. Trusted: the text depends on
/// `hrp` and `data` alone; it is `hrp` as it was given, the separator, one
/// character for every five bits of `data` begun, and six characters of
/// checksum. The call adds up the length of its result in bytes before it
/// builds it, so inputs for which that sum does not fit in a `usize` are
/// left out. It does not validate `hrp`.
#[verifier::external_body]
pub(crate) fn bech32_encode(hrp: &str, data: &[u8]) -> (text: String)
    requires
        bech32_length(hrp.spec_bytes().len(), data@.len()) <= usize::MAX,
    ensures
        text@ == bech32_text(hrp@, data@),
        text@.len() == bech32_length(hrp@.len(), data@.len()),
        starts_with_hrp(text@, hrp@),
{
    subtle_encoding::bech32::encode(hrp, data)
}

} // verus!
