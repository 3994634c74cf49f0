//! Routing identifiers: a keyed hash of the connection identifier that a
//! client chose, cut to a fixed length and used only as a map key.
use vstd::prelude::*;
use ring::rand::SecureRandom;

verus! {

/// Length of a routing identifier, the longest connection identifier QUIC allows.
pub const ROUTING_ID_LEN: usize = 20;

/// Length of the secret routing key, the output length of HMAC-SHA256.
pub const ROUTER_KEY_LEN: usize = 32;

/// The tag that HMAC-SHA256 gives for `data` under the key `key`.
pub uninterp spec fn hmac_sha256_of(key: Seq<u8>, data: Seq<u8>) -> Seq<u8>;

/// The routing identifier of `cid` under `key`: the first bytes of its tag.
pub open spec fn routed_id(key: Seq<u8>, cid: Seq<u8>) -> Seq<u8> {
    hmac_sha256_of(key, cid).take(ROUTING_ID_LEN as int)
}

/// Relies on ring::hmac::sign with a key made by ring::hmac::Key::new over
/// HMAC_SHA256: the tag depends on the key bytes and the data alone and is
/// as long as a SHA-256 digest.
#[verifier::external_body]
fn hmac_sha256(key: &[u8], data: &[u8]) -> (r: Vec<u8>)
    ensures
        r@ == hmac_sha256_of(key@, data@),
        r@.len() == ROUTER_KEY_LEN,
{
    let k = ring::hmac::Key::new(ring::hmac::HMAC_SHA256, key);
    ring::hmac::sign(&k, data).as_ref().to_vec()
}

/// Relies on ring::rand::SystemRandom::fill: on success every byte of the
/// buffer has been written by the system's secure generator.
#[verifier::external_body]
fn random_bytes(n: usize) -> (r: Option<Vec<u8>>)
    ensures
        r is Some ==> r->Some_0@.len() == n,
{
    let mut buf = vec![0u8; n];
    match ring::rand::SystemRandom::new().fill(&mut buf) {
        Ok(()) => Some(buf),
        Err(_) => None,
    }
}

/// Keeps the first `ROUTING_ID_LEN` bytes of a tag.
pub fn truncate_tag(tag: &[u8]) -> (r: Vec<u8>)
    requires
        tag@.len() >= ROUTING_ID_LEN,
    ensures
        r@ == tag@.take(ROUTING_ID_LEN as int),
{
    let mut out: Vec<u8> = Vec::new();
    let mut i: usize = 0;
    while i < ROUTING_ID_LEN
        invariant
            i <= ROUTING_ID_LEN,
            tag@.len() >= ROUTING_ID_LEN,
            out@ == tag@.take(i as int),
        decreases ROUTING_ID_LEN - i,
    {
        out.push(tag[i]);
        i = i + 1;
        assert(out@ =~= tag@.take(i as int));
    }
    out
}

/// The process-wide secret from which routing identifiers are derived.
pub struct RouterKey {
    key: Vec<u8>,
}

impl RouterKey {
    pub closed spec fn view(&self) -> Seq<u8> {
        self.key@
    }

    /// A key from the given secret bytes.
    pub fn from_bytes(key: Vec<u8>) -> (r: RouterKey)
        ensures
            r.view() == key@,
    {
        RouterKey { key }
    }

    /// A fresh random key of `ROUTER_KEY_LEN` bytes, or `None` where the
    /// system generator fails.
    pub fn generate() -> (r: Option<RouterKey>)
        ensures
            r is Some ==> r->Some_0.view().len() == ROUTER_KEY_LEN,
    {
        match random_bytes(ROUTER_KEY_LEN) {
            Some(key) => Some(RouterKey { key }),
            None => None,
        }
    }

    /// The routing identifier of `cid`: deterministic under this key, and
    /// always `ROUTING_ID_LEN` bytes long, the empty identifier included.
    pub fn route(&self, cid: &[u8]) -> (r: Vec<u8>)
        ensures
            r@ == routed_id(self.view(), cid@),
            r@.len() == ROUTING_ID_LEN,
    {
        let tag = hmac_sha256(self.key.as_slice(), cid);
        truncate_tag(tag.as_slice())
    }
}

} // verus!
