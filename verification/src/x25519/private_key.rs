use crate::text::{print_bytes, quoted_base64};
use crate::x25519::curve25519::{
    create_key_pair, ed25519_public_key, key_part, refused, KeyError, SECRET_KEY_SIZE,
};
use vstd::prelude::*;
use vstd::std_specs::cmp::PartialEqSpecImpl;

verus! {

/// A static private key: 64 bytes, a 32-byte secret followed by the Ed25519
/// public key that belongs to it. The secret also serves as the X25519
/// secret in key agreement.
#[derive(Clone, Copy, Debug)]
pub struct PrivateKey([u8; 64]);

impl View for PrivateKey {
    type V = Seq<u8>;

    closed spec fn view(&self) -> Seq<u8> {
        self.0@
    }
}

impl PrivateKey {
    /// The private key made from the seed in the first 32 bytes of `secret`.
    ///
    /// Fails with `InputTooShort` exactly when `secret` has fewer than 32
    /// bytes; otherwise the outcome is OpenSSL's.
    pub fn new(secret: &[u8]) -> (key: Result<Self, KeyError>)
        ensures
            secret@.len() < SECRET_KEY_SIZE ==> key == Err::<Self, KeyError>(
                KeyError::InputTooShort,
            ),
            secret@.len() >= SECRET_KEY_SIZE ==> match key {
                Ok(private) => {
                    &&& private@ == key_part(secret@) + ed25519_public_key(key_part(secret@))
                    &&& key_part(private@) == key_part(secret@)
                },
                Err(error) => refused(error, ed25519_public_key(key_part(secret@)), 32),
            },
    {
        match create_key_pair(secret) {
            Ok(pair) => {
                assert(key_part(pair.0@) =~= key_part(secret@));
                Ok(PrivateKey(pair.0))
            },
            Err(error) => Err(error),
        }
    }

    /// The key with the given bytes, if there are exactly 64 of them.
    pub fn from_bytes(bytes: &[u8]) -> (key: Option<Self>)
        ensures
            bytes@.len() == 64 ==> key is Some && key.unwrap()@ == bytes@,
            bytes@.len() != 64 ==> key is None,
    {
        match crate::bytes::block64(bytes) {
            Some(block) => Some(PrivateKey(block)),
            None => None,
        }
    }

    pub fn as_ref(&self) -> (bytes: &[u8])
        ensures
            bytes@ == self@,
            bytes@.len() == 64,
    {
        &self.0
    }

    pub fn as_mut(&mut self) -> (bytes: &mut [u8])
        ensures
            bytes@ == old(self)@,
            final(self)@ == final(bytes)@,
    {
        &mut self.0
    }

    /// The printed form: the key in base64, between double quotes.
    pub fn to_string(&self) -> (printed: String)
        ensures
            printed@ == quoted_base64(self@),
    {
        print_bytes(&self.0)
    }
}

impl PartialEq for PrivateKey {
    fn eq(&self, other: &Self) -> (same: bool) {
        crate::bytes::same_bytes(&self.0, &other.0)
    }
}

impl PartialEqSpecImpl for PrivateKey {
    open spec fn obeys_eq_spec() -> bool {
        true
    }

    open spec fn eq_spec(&self, other: &Self) -> bool {
        self@ == other@
    }
}

impl Eq for PrivateKey {

}

} // verus!
