use quic_dispatch::header::{PacketHeader, PacketType, PeerAddr};
use quic_dispatch::token::{mint_token, validate_token};

fn initial(dcid: Vec<u8>, token: Vec<u8>) -> PacketHeader {
    PacketHeader { ty: PacketType::Initial, version: 1, dcid, scid: vec![5, 6, 7], token }
}

fn v4(a: u8, b: u8, c: u8, d: u8) -> PeerAddr {
    PeerAddr::new(vec![a, b, c, d], 4433).unwrap()
}

#[test]
fn mint_token_layout() {
    let hdr = initial(vec![0xaa, 0xbb], vec![]);
    let t = mint_token(&hdr, &v4(10, 0, 0, 1));
    assert_eq!(t, b"quiche\x0a\x00\x00\x01\xaa\xbb".to_vec());
}

#[test]
fn token_round_trip_v4() {
    let hdr = initial(vec![1, 2, 3, 4, 5, 6, 7, 8], vec![]);
    let addr = v4(192, 168, 1, 7);
    let t = mint_token(&hdr, &addr);
    assert_eq!(validate_token(&addr, &t), Some(hdr.dcid.clone()));
}

#[test]
fn token_round_trip_v6_and_empty_dcid() {
    let addr = PeerAddr::new((0u8..16).collect(), 1).unwrap();
    let hdr = initial(vec![], vec![]);
    let t = mint_token(&hdr, &addr);
    assert_eq!(t.len(), 22);
    assert_eq!(validate_token(&addr, &t), Some(vec![]));
}

#[test]
fn token_from_other_address_is_refused() {
    let hdr = initial(vec![1, 2, 3], vec![]);
    let t = mint_token(&hdr, &v4(10, 0, 0, 1));
    assert_eq!(validate_token(&v4(10, 0, 0, 2), &t), None);
}

#[test]
fn token_with_bad_marker_or_too_short_is_refused() {
    let addr = v4(1, 2, 3, 4);
    assert_eq!(validate_token(&addr, b""), None);
    assert_eq!(validate_token(&addr, b"quic"), None);
    assert_eq!(validate_token(&addr, b"quichx\x01\x02\x03\x04\x09"), None);
    assert_eq!(validate_token(&addr, b"quiche\x01\x02\x03"), None);
    assert_eq!(validate_token(&addr, b"quiche\x01\x02\x03\x04"), Some(vec![]));
}

#[test]
fn peer_addr_needs_four_or_sixteen_bytes() {
    assert!(PeerAddr::new(vec![1, 2, 3], 1).is_none());
    assert!(PeerAddr::new(vec![0; 5], 1).is_none());
    assert!(!v4(1, 1, 1, 1).is_ipv6());
    assert!(PeerAddr::new(vec![0; 16], 1).unwrap().is_ipv6());
    assert_eq!(v4(4, 3, 2, 1).ip(), &[4, 3, 2, 1]);
}
