use crate::digest::sha256_digest;
use crate::text::{print_bytes, quoted_base64};
use crate::x25519::PublicKey;
use crate::SharedMacSecret;
use vstd::prelude::*;
use vstd::std_specs::cmp::PartialEqSpecImpl;

verus! {

/// The identifier of a peer: SHA-256 over the peer's public key followed by
/// the shared secret. Swapping the two inputs gives another hash input, so
/// the order matters.
pub open spec fn identifier(public_key: Seq<u8>, shared_mac_secret: Seq<u8>) -> Seq<u8> {
    sha256_digest(public_key + shared_mac_secret)
}

/// A peer identifier: 32 bytes. It tags every datagram and is the key under
/// which a connection is found.
#[derive(Clone, Copy, Debug, Hash)]
pub struct x25519IDHash([u8; 32]);

impl View for x25519IDHash {
    type V = Seq<u8>;

    closed spec fn view(&self) -> Seq<u8> {
        self.0@
    }
}

impl x25519IDHash {
    /// The identifier of the holder of `public_key` among those who know
    /// `shared_mac_secret`. Every 32-byte key and secret has one.
    pub fn new(public_key: PublicKey, shared_mac_secret: SharedMacSecret) -> (hash: Self)
        ensures
            hash@ == identifier(public_key@, shared_mac_secret@),
    {
        let mut input: Vec<u8> = Vec::new();
        input.extend_from_slice(public_key.as_ref());
        input.extend_from_slice(shared_mac_secret.as_ref());
        assert(input@ =~= public_key@ + shared_mac_secret@);
        x25519IDHash(openssl::sha::sha256(input.as_slice()))
    }

    /// The identifier with the given bytes, if there are exactly 32 of them.
    pub fn from_bytes(bytes: &[u8]) -> (hash: Option<Self>)
        ensures
            bytes@.len() == 32 ==> hash is Some && hash.unwrap()@ == bytes@,
            bytes@.len() != 32 ==> hash is None,
    {
        match crate::bytes::block32(bytes) {
            Some(block) => Some(x25519IDHash(block)),
            None => None,
        }
    }

    pub fn as_ref(&self) -> (bytes: &[u8])
        ensures
            bytes@ == self@,
            bytes@.len() == 32,
    {
        &self.0
    }

    pub fn as_mut(&mut self) -> (bytes: &mut [u8])
        ensures
            bytes@ == old(self)@,
            final(self)@ == final(bytes)@,
    {
        &mut self.0
    }

    /// The printed form: the identifier in base64, between double quotes.
    pub fn to_string(&self) -> (printed: String)
        ensures
            printed@ == quoted_base64(self@),
    {
        print_bytes(&self.0)
    }
}

impl PartialEq for x25519IDHash {
    fn eq(&self, other: &Self) -> (same: bool) {
        crate::bytes::same_bytes(&self.0, &other.0)
    }
}

impl PartialEqSpecImpl for x25519IDHash {
    open spec fn obeys_eq_spec() -> bool {
        true
    }

    open spec fn eq_spec(&self, other: &Self) -> bool {
        self@ == other@
    }
}

impl Eq for x25519IDHash {

}

/// Deriving an identifier is deterministic: two identifiers derived from the
/// same public key and the same secret are the same identifier.
pub proof fn lemma_identifier_is_deterministic(
    public_key: PublicKey,
    shared_mac_secret: SharedMacSecret,
    first: x25519IDHash,
    second: x25519IDHash,
)
    requires
        first@ == identifier(public_key@, shared_mac_secret@),
        second@ == identifier(public_key@, shared_mac_secret@),
    ensures
        first == second,
{
    assert(first.0 =~= second.0);
}

} // verus!
