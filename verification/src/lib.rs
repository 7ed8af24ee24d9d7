//! Proof-of-ownership checks for a name registration service.
//!
//! A caller proves control of an address by signing a fixed text with the
//! address's key. This library builds that text, checks the signature over
//! it, derives addresses from public keys, and keeps the registry of
//! signatures that have already been used.

pub mod address;
pub mod codec;
pub mod decimal;
pub mod digest;
pub mod error;
pub mod message;
pub mod name_nft;
pub mod replay;
pub mod secp256k1;
pub mod signature;
pub mod storage;
pub mod verification;
