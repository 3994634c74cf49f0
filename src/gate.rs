//! Classification of first-contact datagrams: version negotiation, stateless
//! retry, token validation and acceptance. No connection state is created
//! here; the caller builds the replies and the connection from the outcome.
use vstd::prelude::*;
use crate::header::{PacketHeader, PacketType, PeerAddr};
use crate::token::{append, mint_token, minted, validate_token, validated};

verus! {

/// QUIC version 1.
pub const PROTOCOL_VERSION_V1: u32 = 0x0000_0001;
/// QUIC draft 27.
pub const PROTOCOL_VERSION_DRAFT27: u32 = 0xff00_001b;
/// QUIC draft 28.
pub const PROTOCOL_VERSION_DRAFT28: u32 = 0xff00_001c;
/// QUIC draft 29.
pub const PROTOCOL_VERSION_DRAFT29: u32 = 0xff00_001d;

/// The versions the protocol engine speaks.
pub open spec fn version_supported(v: u32) -> bool {
    v == PROTOCOL_VERSION_V1 || v == PROTOCOL_VERSION_DRAFT27 || v == PROTOCOL_VERSION_DRAFT28
        || v == PROTOCOL_VERSION_DRAFT29
}

pub fn version_is_supported(v: u32) -> (r: bool)
    ensures
        r == version_supported(v),
{
    v == PROTOCOL_VERSION_V1 || v == PROTOCOL_VERSION_DRAFT27 || v == PROTOCOL_VERSION_DRAFT28
        || v == PROTOCOL_VERSION_DRAFT29
}

/// Why a first-contact datagram did not lead to a connection.
pub enum QuicServerError {
    /// The version is not spoken: a version-negotiation datagram is owed.
    VersionNegotiation,
    /// No token: a Retry datagram is owed, carrying `scid` as the new source
    /// identifier and `token` as the address-validation token.
    StatelessRetry { scid: Vec<u8>, token: Vec<u8> },
    /// Not an Initial, a bad token or an identifier of the wrong length:
    /// the datagram is dropped without reply.
    ProtocolError,
}

/// What the engine's accept call is given for a validated client.
pub struct Accepted {
    /// The identifier the server uses from now on (the header's destination).
    pub scid: Vec<u8>,
    /// The client's original destination identifier, from the token.
    pub odcid: Vec<u8>,
}

/// `r` is the right outcome for the datagram `hdr` sent from `ip`, where
/// `conn_id` is the routing identifier of its destination identifier.
pub open spec fn handshake_outcome_holds(
    hdr: &PacketHeader,
    ip: Seq<u8>,
    conn_id: Seq<u8>,
    r: &Result<Accepted, QuicServerError>,
) -> bool {
    let initial = hdr.ty == PacketType::Initial;
    let supported = version_supported(hdr.version);
    let has_token = hdr.token@.len() > 0;
    match r {
        Ok(a) => initial && supported && has_token
            && validated(ip, hdr.token@) == Some(a.odcid@)
            && conn_id.len() == hdr.dcid@.len()
            && a.scid@ == hdr.dcid@,
        Err(QuicServerError::VersionNegotiation) => initial && !supported,
        Err(QuicServerError::StatelessRetry { scid, token }) => initial && supported && !has_token
            && scid@ == conn_id
            && token@ == minted(hdr.dcid@, ip),
        Err(QuicServerError::ProtocolError) => !initial || (supported && has_token && (validated(
            ip,
            hdr.token@,
        ) is None || conn_id.len() != hdr.dcid@.len())),
    }
}

/// Classifies a datagram from `from` that matched no live connection.
pub fn handle_handshake(from: &PeerAddr, hdr: &PacketHeader, conn_id: &[u8]) -> (r: Result<
    Accepted,
    QuicServerError,
>)
    ensures
        handshake_outcome_holds(hdr, from.ip_view(), conn_id@, &r),
{
    match hdr.ty {
        PacketType::Initial => {},
        _ => {
            return Err(QuicServerError::ProtocolError);
        },
    }
    if !version_is_supported(hdr.version) {
        return Err(QuicServerError::VersionNegotiation);
    }
    if hdr.token.len() == 0 {
        let token = mint_token(hdr, from);
        let mut scid: Vec<u8> = Vec::new();
        append(&mut scid, conn_id);
        return Err(QuicServerError::StatelessRetry { scid, token });
    }
    let odcid = match validate_token(from, hdr.token.as_slice()) {
        Some(v) => v,
        None => {
            return Err(QuicServerError::ProtocolError);
        },
    };
    if conn_id.len() != hdr.dcid.len() {
        return Err(QuicServerError::ProtocolError);
    }
    let scid = hdr.dcid.clone();
    Ok(Accepted { scid, odcid })
}

} // verus!
