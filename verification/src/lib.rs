//! Signaling relay for pairing two live peer connections.
//!
//! An offering peer registers its live connection handle under a transfer
//! identifier; a receiving peer looks that offer up and is put in contact with
//! the offerer; afterwards either peer can relay opaque negotiation messages
//! to the other's connection handle. All durable state lives in an external
//! offer directory, and messages travel over an external push-delivery
//! channel; this crate holds the protocol decisions, verified, while the
//! surrounding service performs the store and delivery calls and feeds their
//! results back in.

pub mod coordinator;
pub mod decimal;
pub mod directory;
pub mod errors;
pub mod lookup;
pub mod message;
pub mod offer;
pub mod request;
pub mod response;
pub mod strutil;
