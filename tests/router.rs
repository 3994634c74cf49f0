use quic_dispatch::router::{truncate_tag, RouterKey, ROUTER_KEY_LEN, ROUTING_ID_LEN};
use std::collections::HashSet;

fn fixed_key() -> RouterKey {
    RouterKey::from_bytes((0u8..32).collect())
}

#[test]
fn route_is_deterministic_and_fixed_length() {
    let key = fixed_key();
    let a = key.route(&[1, 2, 3, 4]);
    let b = key.route(&[1, 2, 3, 4]);
    assert_eq!(a, b);
    assert_eq!(a.len(), ROUTING_ID_LEN);
}

#[test]
fn route_of_empty_identifier_is_defined() {
    let key = fixed_key();
    let a = key.route(&[]);
    assert_eq!(a.len(), ROUTING_ID_LEN);
    assert_eq!(a, key.route(&[]));
    assert_ne!(a, key.route(&[0]));
}

#[test]
fn route_is_a_keyed_hash_not_the_identifier() {
    let key = fixed_key();
    let cid: Vec<u8> = (100u8..120).collect();
    let r = key.route(&cid);
    assert_ne!(r, cid);
    let other = RouterKey::from_bytes(vec![7u8; 32]);
    assert_ne!(r, other.route(&cid));
}

#[test]
fn route_matches_hmac_sha256_test_vector() {
    // RFC 4231, test case 2: key "Jefe", data "what do ya want for nothing?".
    let key = RouterKey::from_bytes(b"Jefe".to_vec());
    let r = key.route(b"what do ya want for nothing?");
    let expected: [u8; 20] = [
        0x5b, 0xdc, 0xc1, 0x46, 0xbf, 0x60, 0x75, 0x4e, 0x6a, 0x04, 0x24, 0x26, 0x08, 0x95, 0x75,
        0xc7, 0x5a, 0x00, 0x3f, 0x08,
    ];
    assert_eq!(r, expected.to_vec());
}

#[test]
fn routes_of_distinct_identifiers_do_not_collide() {
    let key = RouterKey::generate().expect("system random generator");
    let mut seen = HashSet::new();
    for i in 0u32..5000 {
        let cid = i.to_be_bytes().to_vec();
        assert!(seen.insert(key.route(&cid)));
    }
    for len in 0usize..21 {
        let cid = vec![0xabu8; len];
        assert!(seen.insert(key.route(&cid)));
    }
}

#[test]
fn generated_keys_differ() {
    let a = RouterKey::generate().expect("system random generator");
    let b = RouterKey::generate().expect("system random generator");
    assert_ne!(a.route(&[9, 9, 9]), b.route(&[9, 9, 9]));
    assert_eq!(ROUTER_KEY_LEN, 32);
}

#[test]
fn truncate_tag_keeps_prefix() {
    let tag: Vec<u8> = (0u8..32).collect();
    assert_eq!(truncate_tag(&tag), (0u8..20).collect::<Vec<u8>>());
}
