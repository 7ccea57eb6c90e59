//! Handshake layer of a peer-to-peer tunnel.
//!
//! An instance holds a static key pair and a table of peer connections. Each
//! connection is registered under an identifier hashed from the peer's public
//! key and a pre-shared secret, exchanges one random contribution with the
//! peer in a `Handshake` packet, and derives a session key from the static
//! Diffie-Hellman secret and both contributions.
//!
//! The library decides; the caller performs the I/O. An instance takes a
//! received datagram or a control command and answers with what has to be
//! sent, so the socket, the channels and the worker thread stay outside.
#![allow(non_camel_case_types)]

pub mod bytes;
pub mod digest;
pub mod instance;
pub mod random;
pub mod shared_mac_secret;
pub mod text;
pub mod x25519;
pub mod x25519_id_hash;

pub use shared_mac_secret::SharedMacSecret;
pub use x25519_id_hash::x25519IDHash;
