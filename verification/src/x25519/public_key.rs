use crate::text::{print_bytes, quoted_base64};
use crate::x25519::curve25519::{
    calculate_public_key, key_part, refused, x25519_public_key, KeyError, SECRET_KEY_SIZE,
};
use vstd::prelude::*;
use vstd::std_specs::cmp::PartialEqSpecImpl;

verus! {

/// A static X25519 public key: 32 bytes.
#[derive(Clone, Copy, Debug)]
pub struct PublicKey([u8; 32]);

impl View for PublicKey {
    type V = Seq<u8>;

    closed spec fn view(&self) -> Seq<u8> {
        self.0@
    }
}

impl PublicKey {
    /// The public key of the X25519 secret in the first 32 bytes of `secret`.
    ///
    /// Fails with `InputTooShort` exactly when `secret` has fewer than 32
    /// bytes; otherwise the outcome is OpenSSL's.
    pub fn new(secret: &[u8]) -> (key: Result<Self, KeyError>)
        ensures
            secret@.len() < SECRET_KEY_SIZE ==> key == Err::<Self, KeyError>(
                KeyError::InputTooShort,
            ),
            secret@.len() >= SECRET_KEY_SIZE ==> match key {
                Ok(public) => public@ == x25519_public_key(key_part(secret@)),
                Err(error) => refused(error, x25519_public_key(key_part(secret@)), 32),
            },
    {
        match calculate_public_key(secret) {
            Ok(block) => Ok(PublicKey(block)),
            Err(error) => Err(error),
        }
    }

    /// The key with the given bytes, if there are exactly 32 of them.
    pub fn from_bytes(bytes: &[u8]) -> (key: Option<Self>)
        ensures
            bytes@.len() == 32 ==> key is Some && key.unwrap()@ == bytes@,
            bytes@.len() != 32 ==> key is None,
    {
        match crate::bytes::block32(bytes) {
            Some(block) => Some(PublicKey(block)),
            None => None,
        }
    }

    pub fn as_ref(&self) -> (bytes: &[u8])
        ensures
            bytes@ == self@,
            bytes@.len() == 32,
    {
        &self.0
    }

    pub fn as_mut(&mut self) -> (bytes: &mut [u8])
        ensures
            bytes@ == old(self)@,
            final(self)@ == final(bytes)@,
    {
        &mut self.0
    }

    /// The printed form: the key in base64, between double quotes.
    pub fn to_string(&self) -> (printed: String)
        ensures
            printed@ == quoted_base64(self@),
    {
        print_bytes(&self.0)
    }
}

impl PartialEq for PublicKey {
    fn eq(&self, other: &Self) -> (same: bool) {
        crate::bytes::same_bytes(&self.0, &other.0)
    }
}

impl PartialEqSpecImpl for PublicKey {
    open spec fn obeys_eq_spec() -> bool {
        true
    }

    open spec fn eq_spec(&self, other: &Self) -> bool {
        self@ == other@
    }
}

impl Eq for PublicKey {

}

} // verus!
