//! Static keys on Curve25519 and the Diffie-Hellman secret two peers share.

pub mod curve25519;
mod private_key;
mod public_key;
mod shared_key;

pub use private_key::PrivateKey;
pub use public_key::PublicKey;
pub use shared_key::{shared_secret, SharedKey};
