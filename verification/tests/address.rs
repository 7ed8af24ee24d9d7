use icns_resolver::address::cosmos_pubkey_to_bech32_address;
use icns_resolver::address::eth_pubkey_to_bech32_address;
use icns_resolver::address::ethereum_digest_tail;
use icns_resolver::address::prefix_is_encodable;
use icns_resolver::address::derive_address;
use icns_resolver::address::HashScheme;
use icns_resolver::address::ADDRESS_LEN;
use icns_resolver::address::MIN_ETHEREUM_KEY_LEN;
use icns_resolver::error::ContractError;

const POINT_X: &str = "79be667ef9dcbbac55a06295ce870b07029bfcdb2dce28d959f2815b16f81798";

const POINT_Y: &str = "483ada7726a3c4655da4fbfc0e1108a8fd17b448a68554199c47d08ffb10d4b8";

fn unhex(text: &str) -> Vec<u8> {
    let digits: Vec<u8> = text
        .chars()
        .map(|c| c.to_digit(16).unwrap() as u8)
        .collect();
    digits.chunks(2).map(|pair| pair[0] * 16 + pair[1]).collect()
}

fn compressed_key() -> Vec<u8> {
    let mut key = vec![2u8];
    key.extend(unhex(POINT_X));
    key
}

fn uncompressed_key() -> Vec<u8> {
    let mut key = vec![4u8];
    key.extend(unhex(POINT_X));
    key.extend(unhex(POINT_Y));
    key
}

#[test]
fn cosmos_address_of_a_known_key() {
    assert_eq!(
        cosmos_pubkey_to_bech32_address(compressed_key(), "osmo".to_string()),
        "osmo1w508d6qejxtdg4y5r3zarvary0c5xw7kjxy2e2"
    );
}

#[test]
fn cosmos_address_follows_the_prefix() {
    assert_eq!(
        cosmos_pubkey_to_bech32_address(compressed_key(), "cosmos".to_string()),
        "cosmos1w508d6qejxtdg4y5r3zarvary0c5xw7k6ah60c"
    );
    assert_eq!(
        cosmos_pubkey_to_bech32_address(compressed_key(), String::new()),
        "1w508d6qejxtdg4y5r3zarvary0c5xw7k8wdjnx"
    );
}

#[test]
fn cosmos_address_of_the_empty_key() {
    assert_eq!(
        cosmos_pubkey_to_bech32_address(Vec::new(), "osmo".to_string()),
        "osmo1k3e2yekshkyuzdcx5sfjena3da7rh87tt26mh7"
    );
}

#[test]
fn ethereum_address_of_a_known_key() {
    assert_eq!(
        eth_pubkey_to_bech32_address(uncompressed_key(), "osmo".to_string()),
        Ok("osmo10e0525sfrf53yh2aljmm3sn9jq5njk7lvmlkkr".to_string())
    );
}

#[test]
fn ethereum_address_follows_the_prefix() {
    assert_eq!(
        eth_pubkey_to_bech32_address(uncompressed_key(), "evmos".to_string()),
        Ok("evmos10e0525sfrf53yh2aljmm3sn9jq5njk7lxpag6e".to_string())
    );
}

#[test]
fn ethereum_address_ignores_the_format_marker() {
    let mut key = uncompressed_key();
    key[0] = 0xff;
    assert_eq!(
        eth_pubkey_to_bech32_address(key, "osmo".to_string()),
        Ok("osmo10e0525sfrf53yh2aljmm3sn9jq5njk7lvmlkkr".to_string())
    );
}

#[test]
fn ethereum_address_of_the_shortest_key() {
    assert_eq!(MIN_ETHEREUM_KEY_LEN, 2);
    assert_eq!(
        eth_pubkey_to_bech32_address(vec![4, 1], "osmo".to_string()),
        Ok("osmo1q4a7awumu2krp3jpp23c6nelheqael7jx3aa7p".to_string())
    );
}

#[test]
fn ethereum_address_refuses_short_keys() {
    assert_eq!(
        eth_pubkey_to_bech32_address(Vec::new(), "osmo".to_string()),
        Err(ContractError::InvalidPublicKey {})
    );
    assert_eq!(
        eth_pubkey_to_bech32_address(vec![4], "osmo".to_string()),
        Err(ContractError::InvalidPublicKey {})
    );
}

#[test]
fn the_two_schemes_differ_on_the_same_key() {
    let cosmos = cosmos_pubkey_to_bech32_address(uncompressed_key(), "osmo".to_string());
    let ethereum = eth_pubkey_to_bech32_address(uncompressed_key(), "osmo".to_string());
    assert_ne!(Ok(cosmos), ethereum);
}

#[test]
fn derivation_dispatches_on_the_scheme() {
    assert_eq!(
        derive_address(HashScheme::Cosmos, compressed_key(), "osmo".to_string()),
        Ok("osmo1w508d6qejxtdg4y5r3zarvary0c5xw7kjxy2e2".to_string())
    );
    assert_eq!(
        derive_address(HashScheme::Ethereum, uncompressed_key(), "osmo".to_string()),
        Ok("osmo10e0525sfrf53yh2aljmm3sn9jq5njk7lvmlkkr".to_string())
    );
    assert_eq!(
        derive_address(HashScheme::Ethereum, vec![4], "osmo".to_string()),
        Err(ContractError::InvalidPublicKey {})
    );
    assert_eq!(
        derive_address(HashScheme::Cosmos, vec![4], "osmo".to_string()).is_ok(),
        true
    );
}

#[test]
fn digest_tail_is_the_last_twenty_bytes() {
    let digest: Vec<u8> = (0u8..32).collect();
    let short: Vec<u8> = (0u8..5).collect();
    assert_eq!(ethereum_digest_tail(&short), short.as_slice());
    assert_eq!(ethereum_digest_tail(&[]), &[] as &[u8]);
    let expected: Vec<u8> = (12u8..32).collect();
    assert_eq!(ADDRESS_LEN, 20);
    assert_eq!(ethereum_digest_tail(&digest), expected.as_slice());
    let exact: Vec<u8> = (0u8..20).collect();
    assert_eq!(ethereum_digest_tail(&exact), exact.as_slice());
}

#[test]
fn addresses_carry_the_prefix_and_the_separator() {
    for prefix in ["", "osmo", "cosmos", "a1b", "\u{e9}t\u{e9}"] {
        let cosmos = cosmos_pubkey_to_bech32_address(compressed_key(), prefix.to_string());
        let ethereum =
            eth_pubkey_to_bech32_address(uncompressed_key(), prefix.to_string()).unwrap();
        for address in [cosmos, ethereum] {
            assert!(address.starts_with(prefix));
            assert_eq!(address[prefix.len()..].chars().next(), Some('1'));
            assert_eq!(address.chars().count(), prefix.chars().count() + 39);
        }
    }
}

#[test]
fn ordinary_prefixes_are_encodable() {
    assert!(prefix_is_encodable(""));
    assert!(prefix_is_encodable("osmo"));
    assert!(prefix_is_encodable(&"x".repeat(100_000)));
}
