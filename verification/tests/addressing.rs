use crosswallet::addressing::derive_wallet_address;
use sha2::Digest;

#[test]
fn derive_is_deterministic() {
    let pk = [7u8; 32];
    let a = derive_wallet_address(&pk, 42);
    let b = derive_wallet_address(&pk, 42);
    assert_eq!(a, b);
}

#[test]
fn derive_distinct_nonces_give_distinct_addresses() {
    let pk = [7u8; 32];
    let a = derive_wallet_address(&pk, 1);
    let b = derive_wallet_address(&pk, 2);
    assert_ne!(a, b);
}

#[test]
fn derive_distinct_keys_give_distinct_addresses() {
    let pk1 = [7u8; 32];
    let pk2 = [8u8; 32];
    let a = derive_wallet_address(&pk1, 1);
    let b = derive_wallet_address(&pk2, 1);
    assert_ne!(a, b);
}

#[test]
fn derive_injective_over_a_sample() {
    let mut seen: Vec<[u8; 32]> = Vec::new();
    for key_byte in 0u8..8 {
        for nonce in 0u64..8 {
            let addr = derive_wallet_address(&[key_byte; 32], nonce);
            assert!(!seen.contains(&addr));
            seen.push(addr);
        }
    }
}

#[test]
fn derive_matches_tagged_sha256() {
    let pk = [5u8; 32];
    let nonce: u64 = 0x0102030405060708;
    let mut seed: Vec<u8> = Vec::new();
    seed.extend_from_slice(b"wallet");
    seed.extend_from_slice(&pk);
    seed.extend_from_slice(&nonce.to_le_bytes());
    let expected: [u8; 32] = sha2::Sha256::digest(&seed).into();
    assert_eq!(derive_wallet_address(&pk, nonce), expected);
}
