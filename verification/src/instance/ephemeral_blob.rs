use crate::bytes::lex_le;
use crate::random::random_block;
use crate::text::{print_bytes, quoted_base64};
use rand::rngs::ThreadRng;
use vstd::prelude::*;
use vstd::std_specs::cmp::PartialEqSpecImpl;

verus! {

/// The random contribution of one side to a handshake: 32 bytes, drawn once
/// when the connection is registered and mixed into the session key.
#[derive(Clone, Copy, Debug)]
pub struct EphemeralBlob([u8; 32]);

impl View for EphemeralBlob {
    type V = Seq<u8>;

    closed spec fn view(&self) -> Seq<u8> {
        self.0@
    }
}

impl EphemeralBlob {
    /// A fresh contribution of 32 random bytes. Nothing is known of the bytes
    /// themselves.
    pub fn new(rng: &mut ThreadRng) -> (blob: Self)
        ensures
            blob@.len() == 32,
    {
        EphemeralBlob(random_block(rng))
    }

    /// Whether this contribution comes first, or is equal, in
    /// byte-lexicographic order.
    pub fn precedes(&self, other: &Self) -> (first: bool)
        ensures
            first == lex_le(self@, other@),
    {
        crate::bytes::precedes(&self.0, &other.0)
    }

    /// The contribution with the given bytes, if there are exactly 32 of them.
    pub fn from_bytes(bytes: &[u8]) -> (blob: Option<Self>)
        ensures
            bytes@.len() == 32 ==> blob is Some && blob.unwrap()@ == bytes@,
            bytes@.len() != 32 ==> blob is None,
    {
        match crate::bytes::block32(bytes) {
            Some(block) => Some(EphemeralBlob(block)),
            None => None,
        }
    }

    pub fn as_ref(&self) -> (bytes: &[u8])
        ensures
            bytes@ == self@,
            bytes@.len() == 32,
    {
        &self.0
    }

    pub fn as_mut(&mut self) -> (bytes: &mut [u8])
        ensures
            bytes@ == old(self)@,
            final(self)@ == final(bytes)@,
    {
        &mut self.0
    }

    /// The printed form: the contribution in base64, between double quotes.
    pub fn to_string(&self) -> (printed: String)
        ensures
            printed@ == quoted_base64(self@),
    {
        print_bytes(&self.0)
    }
}

impl PartialEq for EphemeralBlob {
    fn eq(&self, other: &Self) -> (same: bool) {
        crate::bytes::same_bytes(&self.0, &other.0)
    }
}

impl PartialEqSpecImpl for EphemeralBlob {
    open spec fn obeys_eq_spec() -> bool {
        true
    }

    open spec fn eq_spec(&self, other: &Self) -> bool {
        self@ == other@
    }
}

impl Eq for EphemeralBlob {

}

} // verus!
