use crate::instance::Endpoint;
use crate::x25519::PublicKey;
use crate::{x25519IDHash, SharedMacSecret};
use vstd::prelude::*;

verus! {

/// What an instance can be told to do.
#[derive(Clone, Copy, Debug, PartialEq, Eq)]
pub enum Command {
    /// Stop working.
    Exit,
    /// Register a connection to the peer with this public key, with whom
    /// this secret is shared.
    AddConnection { public_key: PublicKey, shared_mac_secret: SharedMacSecret },
    /// Report the connections.
    ListConnections,
    /// Open the handshake of the connection registered under this identifier
    /// towards this endpoint.
    Connect { x25519_id_hash: x25519IDHash, endpoint: Endpoint },
}

} // verus!
