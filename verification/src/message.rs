//! The text that a registrant signs.
//!
//! The text is a fixed envelope around two variable parts: the base64
//! encoding of a short description of the claim, and the address of the
//! signer. Every character of the envelope and of the description is part
//! of the signing convention: signatures made over one form of the text do
//! not verify over another. The variable parts are inserted as they are,
//! without escaping.

use crate::codec::base64_encode;
use crate::codec::base64_length;
use crate::codec::base64_text;
use crate::decimal::decimal_string;
use crate::decimal::decimal_text;
use vstd::prelude::*;
use vstd::string::*;
use vstd::utf8::*;

verus! {

/// The envelope up to the payload.
pub const MESSAGE_PREFIX: &'static str =
    "{\"account_number\":\"0\",\"chain_id\":\"\",\"fee\":{\"amount\":[],\"gas\":\"0\"},\"memo\":\"\",\"msgs\":[{\"type\":\"sign/MsgSignData\",\"value\":{\"data\":\"";

/// The envelope between the payload and the signer.
pub const SIGNER_PREFIX: &'static str = "\",\"signer\":\"";

/// The envelope after the signer.
pub const MESSAGE_SUFFIX: &'static str = "\"}}],\"sequence\":\"0\"}";

/// The description up to the registered name.
pub const DATA_HEADING: &'static str =
    "The following is the information for ICNS registration for ";

/// The separator between a name and its prefix.
pub const NAME_SEPARATOR: &'static str = ".";

/// The description between the registered name and the chain id.
pub const CHAIN_ID_LABEL: &'static str = ".\n\nChain id: ";

/// The description between the chain id and the contract address.
pub const CONTRACT_ADDRESS_LABEL: &'static str = "\nContract Address: ";

/// The description between the contract address and the owner.
pub const OWNER_LABEL: &'static str = "\nOwner: ";

/// The description between the owner and the salt.
pub const SALT_LABEL: &'static str = "\nSalt: ";

/// The description of a claim, before it is encoded: the name with its
/// prefix, the chain id, the contract address, the owner and the salt in
/// decimal, each behind its label.
pub open spec fn adr36_data_text(
    name: Seq<char>,
    bech32_prefix: Seq<char>,
    sender: Seq<char>,
    chain_id: Seq<char>,
    contract_address: Seq<char>,
    signature_salt: u128,
) -> Seq<char> {
    DATA_HEADING@ + name + NAME_SEPARATOR@ + bech32_prefix + CHAIN_ID_LABEL@ + chain_id
        + CONTRACT_ADDRESS_LABEL@ + contract_address + OWNER_LABEL@ + sender + SALT_LABEL@
        + decimal_text(signature_salt as nat)
}

/// Whether the description of a claim is short enough for its base64
/// encoding to fit in a `usize`.
pub open spec fn adr36_data_fits(
    name: Seq<char>,
    bech32_prefix: Seq<char>,
    sender: Seq<char>,
    chain_id: Seq<char>,
    contract_address: Seq<char>,
    signature_salt: u128,
) -> bool {
    base64_length(
        encode_utf8(
            adr36_data_text(name, bech32_prefix, sender, chain_id, contract_address, signature_salt),
        ).len(),
    ) <= usize::MAX
}

/// The payload of the signed text: the base64 encoding of the UTF-8 bytes of
/// the claim's description.
pub open spec fn adr36_data(
    name: Seq<char>,
    bech32_prefix: Seq<char>,
    sender: Seq<char>,
    chain_id: Seq<char>,
    contract_address: Seq<char>,
    signature_salt: u128,
) -> Seq<char> {
    base64_text(
        encode_utf8(
            adr36_data_text(name, bech32_prefix, sender, chain_id, contract_address, signature_salt),
        ),
    )
}

/// The envelope around a payload and a signer.
pub open spec fn adr36_envelope(data: Seq<char>, signer_bech32_address: Seq<char>) -> Seq<char> {
    MESSAGE_PREFIX@ + data + SIGNER_PREFIX@ + signer_bech32_address + MESSAGE_SUFFIX@
}

/// The signed text: the envelope around the payload of the claim and the
/// signer.
pub open spec fn adr36_message_text(
    name: Seq<char>,
    bech32_prefix: Seq<char>,
    sender: Seq<char>,
    signer_bech32_address: Seq<char>,
    chain_id: Seq<char>,
    contract_address: Seq<char>,
    signature_salt: u128,
) -> Seq<char> {
    adr36_envelope(
        adr36_data(name, bech32_prefix, sender, chain_id, contract_address, signature_salt),
        signer_bech32_address,
    )
}

/// Writes the description of a claim, before it is encoded.
pub fn create_adr36_data_text(
    name: &str,
    bech32_prefix: &str,
    sender: &str,
    chain_id: &str,
    contract_address: &str,
    signature_salt: u128,
) -> (text: String)
    ensures
        text@ == adr36_data_text(
            name@,
            bech32_prefix@,
            sender@,
            chain_id@,
            contract_address@,
            signature_salt,
        ),
{
    let salt = decimal_string(signature_salt);
    let mut text = String::from_str(DATA_HEADING);
    text.append(name);
    text.append(NAME_SEPARATOR);
    text.append(bech32_prefix);
    text.append(CHAIN_ID_LABEL);
    text.append(chain_id);
    text.append(CONTRACT_ADDRESS_LABEL);
    text.append(contract_address);
    text.append(OWNER_LABEL);
    text.append(sender);
    text.append(SALT_LABEL);
    text.append(salt.as_str());
    text
}

/// Tells whether the description of a claim is short enough for its base64
/// encoding to fit in a `usize`, which the functions that build the payload
/// ask of their callers.
pub fn adr36_data_is_encodable(
    name: &str,
    bech32_prefix: &str,
    sender: &str,
    chain_id: &str,
    contract_address: &str,
    signature_salt: u128,
) -> (fits: bool)
    ensures
        fits == adr36_data_fits(
            name@,
            bech32_prefix@,
            sender@,
            chain_id@,
            contract_address@,
            signature_salt,
        ),
{
    let text = create_adr36_data_text(
        name,
        bech32_prefix,
        sender,
        chain_id,
        contract_address,
        signature_salt,
    );
    let len = text.as_str().as_bytes().len();
    let groups = if len % 3 == 0 {
        len / 3
    } else {
        len / 3 + 1
    };
    groups <= usize::MAX / 4
}

/// Builds the payload of the signed text for a claim.
pub fn create_adr36_data(
    name: String,
    bech32_prefix: String,
    sender: String,
    chain_id: String,
    contract_address: String,
    signature_salt: u128,
) -> (data: String)
    requires
        adr36_data_fits(name@, bech32_prefix@, sender@, chain_id@, contract_address@, signature_salt),
    ensures
        data@ == adr36_data(
            name@,
            bech32_prefix@,
            sender@,
            chain_id@,
            contract_address@,
            signature_salt,
        ),
        data@.len() == base64_length(
            encode_utf8(
                adr36_data_text(
                    name@,
                    bech32_prefix@,
                    sender@,
                    chain_id@,
                    contract_address@,
                    signature_salt,
                ),
            ).len(),
        ),
{
    let text = create_adr36_data_text(
        name.as_str(),
        bech32_prefix.as_str(),
        sender.as_str(),
        chain_id.as_str(),
        contract_address.as_str(),
        signature_salt,
    );
    base64_encode(text.as_str().as_bytes())
}

/// Puts the envelope around a payload and a signer.
pub fn create_adr36_envelope(data: &str, signer_bech32_address: &str) -> (message: String)
    ensures
        message@ == adr36_envelope(data@, signer_bech32_address@),
{
    let mut message = String::from_str(MESSAGE_PREFIX);
    message.append(data);
    message.append(SIGNER_PREFIX);
    message.append(signer_bech32_address);
    message.append(MESSAGE_SUFFIX);
    message
}

/// Builds the text that the signer of a claim signs.
pub fn create_adr36_message(
    name: String,
    bech32_prefix: String,
    sender: String,
    signer_bech32_address: String,
    chain_id: String,
    contract_address: String,
    signature_salt: u128,
) -> (message: String)
    requires
        adr36_data_fits(name@, bech32_prefix@, sender@, chain_id@, contract_address@, signature_salt),
    ensures
        message@ == adr36_message_text(
            name@,
            bech32_prefix@,
            sender@,
            signer_bech32_address@,
            chain_id@,
            contract_address@,
            signature_salt,
        ),
{
    let data = create_adr36_data(
        name,
        bech32_prefix,
        sender,
        chain_id,
        contract_address,
        signature_salt,
    );
    create_adr36_envelope(data.as_str(), signer_bech32_address.as_str())
}

/// What a registrant claims: a name under the prefix of a chain, for the
/// address `sender_address`, at the registry `contract_address` on the chain
/// `chain_id`. The salt tells apart two claims that agree in all else.
#[derive(Debug, Clone)]
pub struct RegistrationClaim {
    pub name: String,
    pub sender_address: String,
    pub bech32_prefix: String,
    pub chain_id: String,
    pub contract_address: String,
    pub salt: u128,
}

impl RegistrationClaim {
    /// The description of this claim, before it is encoded.
    pub open spec fn data_text(&self) -> Seq<char> {
        adr36_data_text(
            self.name@,
            self.bech32_prefix@,
            self.sender_address@,
            self.chain_id@,
            self.contract_address@,
            self.salt,
        )
    }

    /// The payload of the text that is signed to make this claim.
    pub open spec fn data(&self) -> Seq<char> {
        adr36_data(
            self.name@,
            self.bech32_prefix@,
            self.sender_address@,
            self.chain_id@,
            self.contract_address@,
            self.salt,
        )
    }

    /// The text that `signer_address` signs to make this claim.
    pub open spec fn message_text(&self, signer_address: Seq<char>) -> Seq<char> {
        adr36_message_text(
            self.name@,
            self.bech32_prefix@,
            self.sender_address@,
            signer_address,
            self.chain_id@,
            self.contract_address@,
            self.salt,
        )
    }

    /// Whether the claim is short enough for its signed text to be built.
    pub open spec fn fits(&self) -> bool {
        adr36_data_fits(
            self.name@,
            self.bech32_prefix@,
            self.sender_address@,
            self.chain_id@,
            self.contract_address@,
            self.salt,
        )
    }

    /// Tells whether the claim is short enough for its signed text to be
    /// built, which the functions that build it ask of their callers.
    pub fn is_encodable(&self) -> (fits: bool)
        ensures
            fits == self.fits(),
    {
        adr36_data_is_encodable(
            self.name.as_str(),
            self.bech32_prefix.as_str(),
            self.sender_address.as_str(),
            self.chain_id.as_str(),
            self.contract_address.as_str(),
            self.salt,
        )
    }
}

/// Builds the payload of the signed text for `claim`.
pub fn build_data(claim: &RegistrationClaim) -> (data: String)
    requires
        claim.fits(),
    ensures
        data@ == claim.data(),
        data@.len() == base64_length(encode_utf8(claim.data_text()).len()),
{
    create_adr36_data(
        claim.name.clone(),
        claim.bech32_prefix.clone(),
        claim.sender_address.clone(),
        claim.chain_id.clone(),
        claim.contract_address.clone(),
        claim.salt,
    )
}

/// Builds the text that `signer_address` signs to make `claim`.
pub fn build_message(claim: &RegistrationClaim, signer_address: &str) -> (message: String)
    requires
        claim.fits(),
    ensures
        message@ == claim.message_text(signer_address@),
{
    let data = build_data(claim);
    create_adr36_envelope(data.as_str(), signer_address)
}

/// The signed text depends on the claim and the signer alone: two texts
/// built for the same claim and the same signer are the same, character for
/// character and byte for byte.
pub proof fn lemma_message_is_deterministic(
    first: String,
    second: String,
    name: Seq<char>,
    bech32_prefix: Seq<char>,
    sender: Seq<char>,
    signer_bech32_address: Seq<char>,
    chain_id: Seq<char>,
    contract_address: Seq<char>,
    signature_salt: u128,
)
    requires
        first@ == adr36_message_text(
            name,
            bech32_prefix,
            sender,
            signer_bech32_address,
            chain_id,
            contract_address,
            signature_salt,
        ),
        second@ == adr36_message_text(
            name,
            bech32_prefix,
            sender,
            signer_bech32_address,
            chain_id,
            contract_address,
            signature_salt,
        ),
    ensures
        first@ == second@,
        encode_utf8(first@) == encode_utf8(second@),
{
}

} // verus!
