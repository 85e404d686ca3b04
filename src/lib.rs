//! Codec and handshake responder for the RAIL virtual channel
//! (remote applications integrated locally).

pub mod error;
pub mod exec;
pub mod header;
pub mod laws;
pub mod pdu;
pub mod rdprail;
pub mod sysparam;
pub mod utf16;
pub mod wire;

pub use rdprail::Rdprail;
