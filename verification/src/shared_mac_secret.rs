use crate::random::random_block;
use crate::text::{print_bytes, quoted_base64};
use rand::rngs::ThreadRng;
use vstd::prelude::*;
use vstd::std_specs::cmp::PartialEqSpecImpl;

verus! {

/// The secret that two peers agree on out of band: 32 bytes. Together with a
/// public key it gives the identifier under which a connection is known.
#[derive(Clone, Copy, Debug)]
pub struct SharedMacSecret([u8; 32]);

impl View for SharedMacSecret {
    type V = Seq<u8>;

    closed spec fn view(&self) -> Seq<u8> {
        self.0@
    }
}

impl SharedMacSecret {
    /// A fresh secret of 32 random bytes. Nothing is known of the bytes
    /// themselves.
    pub fn new(rng: &mut ThreadRng) -> (secret: Self)
        ensures
            secret@.len() == 32,
    {
        SharedMacSecret(random_block(rng))
    }

    /// The secret with the given bytes, if there are exactly 32 of them.
    pub fn from_bytes(bytes: &[u8]) -> (secret: Option<Self>)
        ensures
            bytes@.len() == 32 ==> secret is Some && secret.unwrap()@ == bytes@,
            bytes@.len() != 32 ==> secret is None,
    {
        match crate::bytes::block32(bytes) {
            Some(block) => Some(SharedMacSecret(block)),
            None => None,
        }
    }

    pub fn as_ref(&self) -> (bytes: &[u8])
        ensures
            bytes@ == self@,
            bytes@.len() == 32,
    {
        &self.0
    }

    pub fn as_mut(&mut self) -> (bytes: &mut [u8])
        ensures
            bytes@ == old(self)@,
            final(self)@ == final(bytes)@,
    {
        &mut self.0
    }

    /// The printed form: the secret in base64, between double quotes.
    pub fn to_string(&self) -> (printed: String)
        ensures
            printed@ == quoted_base64(self@),
    {
        print_bytes(&self.0)
    }
}

impl PartialEq for SharedMacSecret {
    fn eq(&self, other: &Self) -> (same: bool) {
        crate::bytes::same_bytes(&self.0, &other.0)
    }
}

impl PartialEqSpecImpl for SharedMacSecret {
    open spec fn obeys_eq_spec() -> bool {
        true
    }

    open spec fn eq_spec(&self, other: &Self) -> bool {
        self@ == other@
    }
}

impl Eq for SharedMacSecret {

}

} // verus!
