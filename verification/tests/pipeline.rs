use eth_wallet_generator::address::eth_address_from_pubkey;
use eth_wallet_generator::wallet::{candidate_from_entropy, fresh_candidate};

fn assert_well_formed(address: &str) {
    assert_eq!(address.len(), 42);
    assert!(address.starts_with("0x"));
    for c in address[2..].chars() {
        assert!(c.is_ascii_hexdigit());
        assert!(!c.is_ascii_uppercase());
    }
}

#[test]
fn same_entropy_yields_same_candidate() {
    let entropy = vec![0x5au8; 16];
    let first = candidate_from_entropy(&entropy).expect("derivation failed");
    let second = candidate_from_entropy(&entropy).expect("derivation failed");
    assert_eq!(first.address, second.address);
    assert_eq!(first.phrase, second.phrase);
}

#[test]
fn zero_entropy_known_wallet() {
    let entropy = vec![0u8; 16];
    let candidate = candidate_from_entropy(&entropy).expect("derivation failed");
    assert_eq!(
        candidate.phrase,
        "abandon abandon abandon abandon abandon abandon abandon abandon abandon abandon abandon about"
    );
    assert_eq!(
        candidate.address,
        "0x9858effd232b4033e47d90003d41ec34ecaeda94"
    );
}

#[test]
fn derived_addresses_are_well_formed() {
    let entropy = vec![7u8; 16];
    let candidate = candidate_from_entropy(&entropy).expect("derivation failed");
    assert_well_formed(&candidate.address);
}

#[test]
fn fresh_candidates_are_well_formed_and_distinct() {
    let first = fresh_candidate().expect("derivation failed");
    let second = fresh_candidate().expect("derivation failed");
    assert_well_formed(&first.address);
    assert_well_formed(&second.address);
    // 128 bits of fresh entropy: a collision would be a sign of a broken
    // entropy source rather than bad luck.
    assert_ne!(first.address, second.address);
}

#[test]
fn address_encoding_is_well_formed() {
    let mut pubkey = vec![2u8; 65];
    pubkey[0] = 4;
    let address = eth_address_from_pubkey(&pubkey);
    assert_well_formed(&address);
}
