use crate::text::{print_bytes, quoted_base64};
use crate::x25519::curve25519::{
    create_shared_key, key_part, refused, x25519_shared_secret, KeyError,
};
use crate::x25519::{PrivateKey, PublicKey};
use vstd::prelude::*;
use vstd::std_specs::cmp::PartialEqSpecImpl;

verus! {

/// The static Diffie-Hellman secret of two peers: 32 bytes.
#[derive(Clone, Copy, Debug)]
pub struct SharedKey([u8; 32]);

impl View for SharedKey {
    type V = Seq<u8>;

    closed spec fn view(&self) -> Seq<u8> {
        self.0@
    }
}

/// The secret that the holder of `private_key` shares with the holder of the
/// private key behind `public_key`: X25519 on the first 32 bytes of the
/// private key and the peer's public key.
pub open spec fn shared_secret(private_key: Seq<u8>, public_key: Seq<u8>) -> Seq<u8> {
    x25519_shared_secret(key_part(private_key), public_key)
}

impl SharedKey {
    /// Key agreement between our private key and a peer's public key.
    ///
    /// The outcome is OpenSSL's: a key is the X25519 shared secret,
    /// `UnexpectedLength` says that OpenSSL returned another size than 32
    /// bytes, `Rejected` that it reported an error.
    pub fn derive(private_key: &PrivateKey, public_key: &PublicKey) -> (key: Result<
        SharedKey,
        KeyError,
    >)
        ensures
            match key {
                Ok(shared) => shared@ == shared_secret(private_key@, public_key@),
                Err(error) => refused(error, shared_secret(private_key@, public_key@), 32),
            },
    {
        let peer_public = public_key.as_ref();
        assert(key_part(peer_public@) =~= peer_public@);
        match create_shared_key(peer_public, private_key.as_ref()) {
            Ok(block) => Ok(SharedKey(block)),
            Err(error) => Err(error),
        }
    }

    /// The key with the given bytes, if there are exactly 32 of them.
    pub fn from_bytes(bytes: &[u8]) -> (key: Option<Self>)
        ensures
            bytes@.len() == 32 ==> key is Some && key.unwrap()@ == bytes@,
            bytes@.len() != 32 ==> key is None,
    {
        match crate::bytes::block32(bytes) {
            Some(block) => Some(SharedKey(block)),
            None => None,
        }
    }

    pub fn as_ref(&self) -> (bytes: &[u8])
        ensures
            bytes@ == self@,
            bytes@.len() == 32,
    {
        &self.0
    }

    pub fn as_mut(&mut self) -> (bytes: &mut [u8])
        ensures
            bytes@ == old(self)@,
            final(self)@ == final(bytes)@,
    {
        &mut self.0
    }

    /// The printed form: the key in base64, between double quotes.
    pub fn to_string(&self) -> (printed: String)
        ensures
            printed@ == quoted_base64(self@),
    {
        print_bytes(&self.0)
    }
}

impl PartialEq for SharedKey {
    fn eq(&self, other: &Self) -> (same: bool) {
        crate::bytes::same_bytes(&self.0, &other.0)
    }
}

impl PartialEqSpecImpl for SharedKey {
    open spec fn obeys_eq_spec() -> bool {
        true
    }

    open spec fn eq_spec(&self, other: &Self) -> bool {
        self@ == other@
    }
}

impl Eq for SharedKey {

}

} // verus!
