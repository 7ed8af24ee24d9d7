//! Authorising a registration by a signed proof of ownership.
//!
//! The steps are always taken in this order: the registry of used signatures
//! is consulted first, and a signature found there is refused before any
//! other work; then the signed text is built and the signature verified
//! over it; only a signature that passed is recorded.

use crate::address::HashScheme;
use crate::error::ContractError;
use crate::message::adr36_data_fits;
use crate::message::adr36_message_text;
use crate::message::build_message;
use crate::message::RegistrationClaim;
use crate::replay::replay_verdict;
use crate::replay::ReplayGuard;
use crate::signature::message_digest;
use crate::signature::message_hash;
use crate::signature::signature_result;
use crate::signature::verify_digest;
use vstd::prelude::*;

verus! {

/// The proof that comes with a claim: a signature over the signed text, made
/// with the key `public_key` of the address `signer_address`.
#[derive(Debug, Clone)]
pub struct Adr36Info {
    pub signature: Vec<u8>,
    pub signature_salt: u128,
    pub signer_address: String,
    pub public_key: Vec<u8>,
}

/// The result of verifying a proof, given whether its signature is in the
/// registry and what verifying the signature gives. A signature in the
/// registry is refused whatever its verification would give.
pub open spec fn verification_result(consumed: bool, verified: Result<(), ContractError>) -> Result<
    (),
    ContractError,
> {
    if consumed {
        Err(ContractError::SigntaureAlreadyExists {  })
    } else {
        verified
    }
}

/// What is to be done for a proof once its signature has been looked up in
/// the registry.
#[derive(Debug, PartialEq)]
pub enum VerificationStep {
    /// The proof is refused with this error, and nothing more is done.
    Refuse(ContractError),
    /// The signature is to be verified over this digest of the signed text.
    Verify(Vec<u8>),
}

/// Whether `step` is what follows the lookup of a proof's signature, where
/// the lookup gave `consumed` and the claim's signed text is `message`: a
/// signature found in the registry is refused, and only for one that was not
/// found there is a digest to verify.
pub open spec fn is_step_after_lookup(
    step: VerificationStep,
    consumed: bool,
    message: Seq<char>,
) -> bool {
    match step {
        VerificationStep::Refuse(error) => consumed && error
            == ContractError::SigntaureAlreadyExists {  },
        VerificationStep::Verify(digest) => !consumed && digest@ == message_digest(message),
    }
}

/// The registry after an authorisation that started with the registry
/// `before` and ended in `result`, for a proof with `signature`: a success
/// records the signature, a failure changes nothing.
pub open spec fn registry_after(
    before: Set<Seq<u8>>,
    signature: Seq<u8>,
    result: Result<(), ContractError>,
) -> Set<Seq<u8>> {
    if result is Ok {
        before.insert(signature)
    } else {
        before
    }
}

/// Says what follows the lookup of a proof's signature in the registry. The
/// lookup comes first: its answer is asked for here, and the digest without
/// which nothing can be verified is given only where the answer was no.
pub fn begin_verification(consumed: bool, claim: &RegistrationClaim, signer_address: &str) -> (step:
    VerificationStep)
    requires
        !consumed ==> claim.fits(),
    ensures
        is_step_after_lookup(step, consumed, claim.message_text(signer_address@)),
{
    match replay_verdict(consumed) {
        Err(error) => VerificationStep::Refuse(error),
        Ok(()) => {
            let message = build_message(claim, signer_address);
            VerificationStep::Verify(message_hash(message.as_str()))
        },
    }
}

/// Verifies the proof `adr36_info` of a claim against the registry, without
/// recording anything. The salt of the claim is that of the proof.
pub fn adr36_verification(
    guard: &ReplayGuard,
    name: String,
    sender: String,
    bech32_prefix: String,
    adr36_info: Adr36Info,
    chain_id: String,
    contract_address: String,
) -> (result: Result<(), ContractError>)
    requires
        adr36_data_fits(
            name@,
            bech32_prefix@,
            sender@,
            chain_id@,
            contract_address@,
            adr36_info.signature_salt,
        ),
    ensures
        result == verification_result(
            guard@.contains(adr36_info.signature@),
            signature_result(
                adr36_message_text(
                    name@,
                    bech32_prefix@,
                    sender@,
                    adr36_info.signer_address@,
                    chain_id@,
                    contract_address@,
                    adr36_info.signature_salt,
                ),
                adr36_info.signature@,
                adr36_info.public_key@,
            ),
        ),
{
    let claim = RegistrationClaim {
        name,
        sender_address: sender,
        bech32_prefix,
        chain_id,
        contract_address,
        salt: adr36_info.signature_salt,
    };
    let consumed = guard.is_consumed(adr36_info.signature.as_slice());
    match begin_verification(consumed, &claim, adr36_info.signer_address.as_str()) {
        VerificationStep::Refuse(error) => Err(error),
        VerificationStep::Verify(digest) => verify_digest(
            digest.as_slice(),
            adr36_info.signature.as_slice(),
            adr36_info.public_key.as_slice(),
        ),
    }
}

/// Authorises the registration that `claim` asks for, on the strength of
/// `proof`, and records the signature of the proof in the registry. On any
/// error the registry is left as it was.
///
/// The scheme takes no part in this: whether the key of the proof belongs to
/// the address of the claim is for the caller to establish, by deriving the
/// address of the key and comparing.
pub fn authorize(
    guard: &mut ReplayGuard,
    claim: RegistrationClaim,
    proof: Adr36Info,
    scheme: HashScheme,
) -> (result: Result<(), ContractError>)
    requires
        claim.fits(),
    ensures
        result == verification_result(
            old(guard)@.contains(proof.signature@),
            signature_result(
                claim.message_text(proof.signer_address@),
                proof.signature@,
                proof.public_key@,
            ),
        ),
        final(guard)@ == registry_after(old(guard)@, proof.signature@, result),
{
    let consumed = guard.is_consumed(proof.signature.as_slice());
    match begin_verification(consumed, &claim, proof.signer_address.as_str()) {
        VerificationStep::Refuse(error) => Err(error),
        VerificationStep::Verify(digest) => match verify_digest(
            digest.as_slice(),
            proof.signature.as_slice(),
            proof.public_key.as_slice(),
        ) {
            Err(error) => Err(error),
            Ok(()) => guard.mark_consumed(proof.signature.as_slice()),
        },
    }
}

/// A signature authorises exactly once. The first authorisation with a
/// signature that is not in the registry and verifies succeeds and records
/// it; every later authorisation with the same signature is refused as a
/// replay and changes nothing, whatever claim it comes with and whatever
/// verifying the signature would give then.
pub proof fn lemma_at_most_once(
    before: Set<Seq<u8>>,
    signature: Seq<u8>,
    second_verified: Result<(), ContractError>,
)
    requires
        !before.contains(signature),
    ensures
        ({
            let first = verification_result(before.contains(signature), Ok(()));
            let between = registry_after(before, signature, first);
            let second = verification_result(between.contains(signature), second_verified);
            &&& first is Ok
            &&& between.contains(signature)
            &&& second == Err::<(), ContractError>(ContractError::SigntaureAlreadyExists {  })
            &&& registry_after(between, signature, second) == between
        }),
{
}

/// An authorisation succeeds exactly for a signature that is not in the
/// registry and verifies, and then the signature is in the registry.
pub proof fn lemma_success_records(
    before: Set<Seq<u8>>,
    signature: Seq<u8>,
    verified: Result<(), ContractError>,
)
    ensures
        ({
            let result = verification_result(before.contains(signature), verified);
            &&& result is Ok <==> !before.contains(signature) && verified is Ok
            &&& result is Ok ==> registry_after(before, signature, result).contains(signature)
        }),
{
}

/// A signature that is in the registry stays there: no authorisation, passed
/// or failed, removes one, and a failed one leaves the registry as it was.
pub proof fn lemma_consumed_stays_consumed(
    before: Set<Seq<u8>>,
    signature: Seq<u8>,
    result: Result<(), ContractError>,
    earlier: Seq<u8>,
)
    requires
        before.contains(earlier),
    ensures
        registry_after(before, signature, result).contains(earlier),
        result is Err ==> registry_after(before, signature, result) == before,
{
}

} // verus!
