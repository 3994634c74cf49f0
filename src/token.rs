//! Stateless-retry tokens: a fixed marker, the client's IP address bytes and
//! the original destination connection identifier, one after the other.
//! The token carries no integrity tag and no expiry.
use vstd::prelude::*;
use crate::header::{PacketHeader, PeerAddr};

verus! {

/// Length of the marker that opens every token.
pub const TOKEN_TAG_LEN: usize = 6;

/// The marker `quiche` in ASCII.
pub open spec fn token_tag() -> Seq<u8> {
    seq![113u8, 117u8, 105u8, 99u8, 104u8, 101u8]
}

/// The token minted for a client at `ip` whose Initial named `dcid`.
pub open spec fn minted(dcid: Seq<u8>, ip: Seq<u8>) -> Seq<u8> {
    token_tag() + ip + dcid
}

/// What a token presented from `ip` yields: the original destination
/// identifier where the token opens with the marker and then `ip`.
pub open spec fn validated(ip: Seq<u8>, token: Seq<u8>) -> Option<Seq<u8>> {
    if token.len() >= TOKEN_TAG_LEN + ip.len()
        && token.take(TOKEN_TAG_LEN as int) == token_tag()
        && token.subrange(TOKEN_TAG_LEN as int, TOKEN_TAG_LEN + ip.len()) == ip
    {
        Some(token.skip(TOKEN_TAG_LEN + ip.len()))
    } else {
        None
    }
}

pub(crate) fn append(out: &mut Vec<u8>, bytes: &[u8])
    ensures
        final(out)@ == old(out)@ + bytes@,
{
    let mut i: usize = 0;
    while i < bytes.len()
        invariant
            i <= bytes@.len(),
            out@ == old(out)@ + bytes@.take(i as int),
        decreases bytes@.len() - i,
    {
        out.push(bytes[i]);
        i = i + 1;
        assert(out@ =~= old(out)@ + bytes@.take(i as int));
    }
    assert(bytes@.take(i as int) =~= bytes@);
}

/// Mints the retry token for the sender `src` of the Initial `hdr`.
pub fn mint_token(hdr: &PacketHeader, src: &PeerAddr) -> (r: Vec<u8>)
    ensures
        r@ == minted(hdr.dcid@, src.ip_view()),
{
    let mut token: Vec<u8> = vec![113u8, 117u8, 105u8, 99u8, 104u8, 101u8];
    append(&mut token, src.ip());
    append(&mut token, hdr.dcid.as_slice());
    assert(token@ =~= minted(hdr.dcid@, src.ip_view()));
    token
}

/// Checks a retry token presented by `src` and recovers the original
/// destination connection identifier from it.
pub fn validate_token(src: &PeerAddr, token: &[u8]) -> (r: Option<Vec<u8>>)
    ensures
        r is Some <==> validated(src.ip_view(), token@) is Some,
        r is Some ==> validated(src.ip_view(), token@) == Some(r->Some_0@),
{
    let ip = src.ip();
    if token.len() < TOKEN_TAG_LEN || token.len() - TOKEN_TAG_LEN < ip.len() {
        return None;
    }
    let tag: [u8; 6] = [113u8, 117u8, 105u8, 99u8, 104u8, 101u8];
    let mut i: usize = 0;
    while i < TOKEN_TAG_LEN
        invariant
            i <= TOKEN_TAG_LEN,
            token@.len() >= TOKEN_TAG_LEN,
            tag@ == token_tag(),
            ip@ == src.ip_view(),
            forall|k: int| 0 <= k < i ==> token@[k] == token_tag()[k],
        decreases TOKEN_TAG_LEN - i,
    {
        if token[i] != tag[i] {
            assert(token@.take(TOKEN_TAG_LEN as int)[i as int] != token_tag()[i as int]);
            return None;
        }
        i = i + 1;
    }
    assert(token@.take(TOKEN_TAG_LEN as int) =~= token_tag());
    let mut j: usize = 0;
    while j < ip.len()
        invariant
            j <= ip@.len(),
            ip@ == src.ip_view(),
            token@.len() <= usize::MAX,
            token@.len() >= TOKEN_TAG_LEN + ip@.len(),
            token@.take(TOKEN_TAG_LEN as int) == token_tag(),
            forall|k: int| 0 <= k < j ==> token@[TOKEN_TAG_LEN + k] == ip@[k],
        decreases ip@.len() - j,
    {
        if token[TOKEN_TAG_LEN + j] != ip[j] {
            assert(token@.subrange(TOKEN_TAG_LEN as int, TOKEN_TAG_LEN + ip@.len())[j as int]
                != ip@[j as int]);
            return None;
        }
        j = j + 1;
    }
    assert(token@.subrange(TOKEN_TAG_LEN as int, TOKEN_TAG_LEN + ip@.len()) =~= ip@);
    let start = TOKEN_TAG_LEN + ip.len();
    let mut odcid: Vec<u8> = Vec::new();
    let mut k: usize = start;
    while k < token.len()
        invariant
            start <= k <= token@.len(),
            odcid@ == token@.subrange(start as int, k as int),
        decreases token@.len() - k,
    {
        odcid.push(token[k]);
        k = k + 1;
        assert(odcid@ =~= token@.subrange(start as int, k as int));
    }
    assert(odcid@ =~= token@.skip(start as int));
    Some(odcid)
}

/// A token minted for an address and presented again from that address
/// yields the original destination identifier it was minted for.
pub proof fn lemma_token_round_trip(dcid: Seq<u8>, ip: Seq<u8>)
    ensures
        validated(ip, minted(dcid, ip)) == Some(dcid),
{
    let t = minted(dcid, ip);
    assert(t.take(TOKEN_TAG_LEN as int) =~= token_tag());
    assert(t.subrange(TOKEN_TAG_LEN as int, TOKEN_TAG_LEN + ip.len()) =~= ip);
    assert(t.skip(TOKEN_TAG_LEN + ip.len()) =~= dcid);
}

/// A token minted for one address is refused when presented from another
/// address of the same family.
pub proof fn lemma_token_other_address(dcid: Seq<u8>, ip: Seq<u8>, other: Seq<u8>)
    requires
        ip.len() == other.len(),
        ip != other,
    ensures
        validated(other, minted(dcid, ip)) is None,
{
    let t = minted(dcid, ip);
    assert(t.subrange(TOKEN_TAG_LEN as int, TOKEN_TAG_LEN + ip.len()) =~= ip);
}

} // verus!
