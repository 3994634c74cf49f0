//! Connection dispatch for a QUIC server: routing identifiers, retry tokens,
//! first-contact classification, the connection registry and the
//! completion-based socket slots.
pub mod channel;
pub mod dispatch;
pub mod gate;
pub mod header;
pub mod registry;
pub mod router;
pub mod token;
