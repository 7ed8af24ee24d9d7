use icns_resolver::address::HashScheme;
use icns_resolver::error::ContractError;
use icns_resolver::message::build_message;
use icns_resolver::message::RegistrationClaim;
use icns_resolver::replay::ReplayGuard;
use icns_resolver::verification::adr36_verification;
use icns_resolver::signature::message_hash;
use icns_resolver::verification::authorize;
use icns_resolver::verification::begin_verification;
use icns_resolver::verification::VerificationStep;
use icns_resolver::verification::Adr36Info;
use k256::ecdsa::signature::Signer;
use k256::ecdsa::Signature;
use k256::ecdsa::SigningKey;

const SIGNER: &str = "osmo1w508d6qejxtdg4y5r3zarvary0c5xw7kjxy2e2";

fn signing_key(seed: u8) -> SigningKey {
    let mut secret = [0u8; 32];
    secret[31] = seed;
    SigningKey::from_slice(&secret).unwrap()
}

fn claim(name: &str, salt: u128) -> RegistrationClaim {
    RegistrationClaim {
        name: name.to_string(),
        sender_address: SIGNER.to_string(),
        bech32_prefix: "osmo".to_string(),
        chain_id: "osmo-1".to_string(),
        contract_address: "osmo1contract".to_string(),
        salt,
    }
}

fn message_of(claim: &RegistrationClaim, signer: &str) -> String {
    build_message(claim, signer)
}

fn proof_of(claim: &RegistrationClaim, key: &SigningKey) -> Adr36Info {
    let signature: Signature = key.sign(message_of(claim, SIGNER).as_bytes());
    Adr36Info {
        signature: signature.to_bytes().to_vec(),
        signature_salt: claim.salt,
        signer_address: SIGNER.to_string(),
        public_key: key.verifying_key().to_encoded_point(true).as_bytes().to_vec(),
    }
}

fn verify(guard: &ReplayGuard, claim: &RegistrationClaim, proof: &Adr36Info) -> Result<(), ContractError> {
    adr36_verification(
        guard,
        claim.name.clone(),
        claim.sender_address.clone(),
        claim.bech32_prefix.clone(),
        proof.clone(),
        claim.chain_id.clone(),
        claim.contract_address.clone(),
    )
}

#[test]
fn verification_accepts_a_signed_claim() {
    let guard = ReplayGuard::new();
    let claim = claim("alice", 12345);
    let proof = proof_of(&claim, &signing_key(1));
    assert_eq!(verify(&guard, &claim, &proof), Ok(()));
}

#[test]
fn verification_records_nothing() {
    let guard = ReplayGuard::new();
    let claim = claim("alice", 12345);
    let proof = proof_of(&claim, &signing_key(1));
    assert_eq!(verify(&guard, &claim, &proof), Ok(()));
    assert!(!guard.is_consumed(&proof.signature));
    assert_eq!(verify(&guard, &claim, &proof), Ok(()));
}

#[test]
fn verification_takes_the_salt_from_the_proof() {
    let guard = ReplayGuard::new();
    let claim = claim("alice", 12345);
    let mut proof = proof_of(&claim, &signing_key(1));
    proof.signature_salt = 12346;
    assert_eq!(
        verify(&guard, &claim, &proof),
        Err(ContractError::SignatureMisMatch {})
    );
}

#[test]
fn verification_refuses_a_claim_that_was_not_signed() {
    let guard = ReplayGuard::new();
    let signed = claim("alice", 12345);
    let proof = proof_of(&signed, &signing_key(1));
    assert_eq!(
        verify(&guard, &claim("bob", 12345), &proof),
        Err(ContractError::SignatureMisMatch {})
    );
    let mut other_chain = claim("alice", 12345);
    other_chain.chain_id = "osmo-2".to_string();
    assert_eq!(
        verify(&guard, &other_chain, &proof),
        Err(ContractError::SignatureMisMatch {})
    );
}

#[test]
fn verification_refuses_another_signer_address() {
    let guard = ReplayGuard::new();
    let claim = claim("alice", 12345);
    let mut proof = proof_of(&claim, &signing_key(1));
    proof.signer_address = "osmo1other".to_string();
    assert_eq!(
        verify(&guard, &claim, &proof),
        Err(ContractError::SignatureMisMatch {})
    );
}

#[test]
fn verification_refuses_a_consumed_signature() {
    let mut guard = ReplayGuard::new();
    let claim = claim("alice", 12345);
    let proof = proof_of(&claim, &signing_key(1));
    assert_eq!(guard.mark_consumed(&proof.signature), Ok(()));
    assert_eq!(
        verify(&guard, &claim, &proof),
        Err(ContractError::SigntaureAlreadyExists {})
    );
}

#[test]
fn verification_looks_for_a_replay_before_it_checks() {
    let mut guard = ReplayGuard::new();
    let claim = claim("alice", 12345);
    let proof = Adr36Info {
        signature: vec![1, 2, 3],
        signature_salt: 12345,
        signer_address: SIGNER.to_string(),
        public_key: Vec::new(),
    };
    assert_eq!(
        verify(&guard, &claim, &proof),
        Err(ContractError::SignatureMisMatch {})
    );
    assert_eq!(guard.mark_consumed(&proof.signature), Ok(()));
    assert_eq!(
        verify(&guard, &claim, &proof),
        Err(ContractError::SigntaureAlreadyExists {})
    );
}

#[test]
fn a_consumed_signature_is_refused_at_the_lookup() {
    assert_eq!(
        begin_verification(true, &claim("alice", 12345), SIGNER),
        VerificationStep::Refuse(ContractError::SigntaureAlreadyExists {})
    );
}

#[test]
fn an_unconsumed_signature_is_to_be_verified_over_the_digest() {
    let claim = claim("alice", 12345);
    assert_eq!(
        begin_verification(false, &claim, SIGNER),
        VerificationStep::Verify(message_hash(&message_of(&claim, SIGNER)))
    );
}

#[test]
fn authorization_records_the_signature_of_a_valid_proof() {
    let mut guard = ReplayGuard::new();
    let claim = claim("carol", 7);
    let proof = proof_of(&claim, &signing_key(5));
    assert!(!guard.is_consumed(&proof.signature));
    assert_eq!(
        authorize(&mut guard, claim, proof.clone(), HashScheme::Cosmos),
        Ok(())
    );
    assert!(guard.is_consumed(&proof.signature));
}

#[test]
fn authorization_succeeds_once() {
    let mut guard = ReplayGuard::new();
    let claim = claim("alice", 12345);
    let proof = proof_of(&claim, &signing_key(1));
    assert_eq!(
        authorize(&mut guard, claim.clone(), proof.clone(), HashScheme::Cosmos),
        Ok(())
    );
    assert!(guard.is_consumed(&proof.signature));
    assert_eq!(
        authorize(&mut guard, claim, proof, HashScheme::Cosmos),
        Err(ContractError::SigntaureAlreadyExists {})
    );
}

#[test]
fn authorization_refuses_a_used_signature_with_another_claim() {
    let mut guard = ReplayGuard::new();
    let signed = claim("alice", 12345);
    let proof = proof_of(&signed, &signing_key(1));
    assert_eq!(
        authorize(&mut guard, signed, proof.clone(), HashScheme::Cosmos),
        Ok(())
    );
    assert_eq!(
        authorize(&mut guard, claim("bob", 1), proof, HashScheme::Cosmos),
        Err(ContractError::SigntaureAlreadyExists {})
    );
}

#[test]
fn authorization_of_an_unsigned_claim_fails_and_records_nothing() {
    let mut guard = ReplayGuard::new();
    let signed = claim("alice", 12345);
    let proof = proof_of(&signed, &signing_key(1));
    assert_eq!(
        authorize(&mut guard, claim("bob", 12345), proof.clone(), HashScheme::Cosmos),
        Err(ContractError::SignatureMisMatch {})
    );
    assert!(!guard.is_consumed(&proof.signature));
    assert_eq!(
        authorize(&mut guard, signed, proof.clone(), HashScheme::Cosmos),
        Ok(())
    );
    assert!(guard.is_consumed(&proof.signature));
}

#[test]
fn authorization_takes_the_salt_from_the_claim() {
    let mut guard = ReplayGuard::new();
    let claim = claim("alice", 12345);
    let mut proof = proof_of(&claim, &signing_key(1));
    proof.signature_salt = 1;
    assert_eq!(
        authorize(&mut guard, claim, proof, HashScheme::Cosmos),
        Ok(())
    );
}

#[test]
fn authorization_does_not_depend_on_the_scheme() {
    let claim = claim("alice", 12345);
    let proof = proof_of(&claim, &signing_key(1));
    let mut first = ReplayGuard::new();
    let mut second = ReplayGuard::new();
    assert_eq!(
        authorize(&mut first, claim.clone(), proof.clone(), HashScheme::Cosmos),
        Ok(())
    );
    assert_eq!(
        authorize(&mut second, claim, proof, HashScheme::Ethereum),
        Ok(())
    );
}

#[test]
fn two_signatures_of_two_claims_both_authorize() {
    let mut guard = ReplayGuard::new();
    let key = signing_key(1);
    let first = claim("alice", 1);
    let second = claim("alice", 2);
    let first_proof = proof_of(&first, &key);
    let second_proof = proof_of(&second, &key);
    assert_ne!(first_proof.signature, second_proof.signature);
    assert_eq!(
        authorize(&mut guard, first, first_proof, HashScheme::Cosmos),
        Ok(())
    );
    assert_eq!(
        authorize(&mut guard, second, second_proof, HashScheme::Cosmos),
        Ok(())
    );
}
