//! The decisions of one dispatch pass and of the event loop: which
//! connection a datagram belongs to, or what the handshake gate owes it,
//! and which slot a wake-up concerns.
use vstd::prelude::*;
use crate::gate::{handle_handshake, handshake_outcome_holds, Accepted, QuicServerError};
use crate::header::{PacketHeader, PeerAddr};
use crate::registry::{index_of, ConnectionRegistry};
use crate::router::{routed_id, RouterKey};

verus! {

/// Where a parsed datagram goes.
pub enum Dispatch {
    /// To the live connection at this position of the registry.
    Existing { index: usize },
    /// To the handshake gate; `routed` is the routing identifier of the
    /// destination identifier, under which an accepted connection is kept.
    Handshake { routed: Vec<u8>, outcome: Result<Accepted, QuicServerError> },
}

/// Routes a parsed datagram from `from`: to the entry keyed by its raw
/// destination identifier, else to the one keyed by that identifier's
/// routing identifier, else through the handshake gate.
pub fn dispatch_datagram<H>(
    reg: &ConnectionRegistry<H>,
    key: &RouterKey,
    from: &PeerAddr,
    hdr: &PacketHeader,
) -> (r: Dispatch)
    requires
        reg.wf(),
    ensures
        ({
            let routed = routed_id(key.view(), hdr.dcid@);
            let by_raw = index_of(reg.view(), hdr.dcid@);
            let by_routed = index_of(reg.view(), routed);
            match r {
                Dispatch::Existing { index } => (by_raw is Some || by_routed is Some) && index
                    < reg.view().len() && (reg.view()[index as int].id@ == hdr.dcid@ || (by_raw is None
                    && reg.view()[index as int].id@ == routed)),
                Dispatch::Handshake { routed: rid, outcome } => by_raw is None && by_routed is None
                    && rid@ == routed && handshake_outcome_holds(hdr, from.ip_view(), rid@, &outcome),
            }
        }),
{
    let routed = key.route(hdr.dcid.as_slice());
    match reg.resolve(hdr.dcid.as_slice(), routed.as_slice()) {
        Some(index) => Dispatch::Existing { index },
        None => {
            let outcome = handle_handshake(from, hdr, routed.as_slice());
            Dispatch::Handshake { routed, outcome }
        },
    }
}

/// The wait primitive's answer when nothing was signalled in time.
pub const WAIT_TIMEOUT: u32 = 258;

/// Which slot of which listener a wake-up concerns.
#[derive(Clone, Copy, Debug, PartialEq, Eq, Structural)]
pub enum WakeEvent {
    /// The receive slot of this listener completed.
    Receive { listener: usize },
    /// The send slot of this listener completed.
    SendFinished { listener: usize },
    Timeout,
    Failure,
}

/// Decodes the index the wait primitive returned, over signals laid out as
/// the receive signals of all `listeners` followed by their send signals.
pub fn decode_wake(signaled: u32, listeners: usize) -> (r: WakeEvent)
    ensures
        (signaled as int) < listeners ==> r == (WakeEvent::Receive { listener: signaled as usize }),
        listeners <= signaled < 2 * listeners ==> r == (WakeEvent::SendFinished {
            listener: (signaled - listeners) as usize,
        }),
        signaled >= 2 * listeners && signaled == WAIT_TIMEOUT ==> r == WakeEvent::Timeout,
        signaled >= 2 * listeners && signaled != WAIT_TIMEOUT ==> r == WakeEvent::Failure,
{
    let s = signaled as usize;
    if (signaled as u64) < (listeners as u64) {
        WakeEvent::Receive { listener: s }
    } else if (signaled as u64) - (listeners as u64) < (listeners as u64) {
        WakeEvent::SendFinished { listener: s - listeners }
    } else if signaled == WAIT_TIMEOUT {
        WakeEvent::Timeout
    } else {
        WakeEvent::Failure
    }
}

} // verus!
