use crate::bytes::{lemma_lex_le_antisymmetric, lemma_lex_le_total, lex_le};
use crate::digest::sha256_digest;
use crate::instance::EphemeralBlob;
use crate::text::{print_bytes, quoted_base64};
use crate::x25519::SharedKey;
use vstd::prelude::*;
use vstd::std_specs::cmp::PartialEqSpecImpl;

verus! {

/// Two contributions in ascending byte-lexicographic order, one after the
/// other. Which of the two was named first makes no difference.
pub open spec fn canonical_order(first: Seq<u8>, second: Seq<u8>) -> Seq<u8> {
    if lex_le(first, second) {
        first + second
    } else {
        second + first
    }
}

/// The session key of a connection: SHA-256 over the static Diffie-Hellman
/// secret followed by both contributions in canonical order.
pub open spec fn session_key(shared_key: Seq<u8>, local: Seq<u8>, remote: Seq<u8>) -> Seq<u8> {
    sha256_digest(shared_key + canonical_order(local, remote))
}

/// The canonical order of two contributions does not depend on which of them
/// is ours and which the peer's.
pub proof fn lemma_canonical_order_is_symmetric(first: Seq<u8>, second: Seq<u8>)
    ensures
        canonical_order(first, second) == canonical_order(second, first),
{
    lemma_lex_le_total(first, second);
    if lex_le(first, second) && lex_le(second, first) {
        lemma_lex_le_antisymmetric(first, second);
    }
}

/// Both peers derive the same session key: with the same Diffie-Hellman
/// secret, exchanging the roles of the two contributions leaves the key as
/// it is.
pub proof fn lemma_session_key_is_symmetric(shared_key: Seq<u8>, ours: Seq<u8>, theirs: Seq<u8>)
    ensures
        session_key(shared_key, ours, theirs) == session_key(shared_key, theirs, ours),
{
    lemma_canonical_order_is_symmetric(ours, theirs);
}

/// The key of an established session: 32 bytes.
#[derive(Clone, Copy, Debug)]
pub struct SessionKey([u8; 32]);

impl View for SessionKey {
    type V = Seq<u8>;

    closed spec fn view(&self) -> Seq<u8> {
        self.0@
    }
}

impl SessionKey {
    /// Derives the session key from the Diffie-Hellman secret and the two
    /// contributions.
    pub fn derive(
        shared_key: &SharedKey,
        local: &EphemeralBlob,
        remote: &EphemeralBlob,
    ) -> (key: Self)
        ensures
            key@ == session_key(shared_key@, local@, remote@),
    {
        let mut input: Vec<u8> = Vec::new();
        input.extend_from_slice(shared_key.as_ref());
        if local.precedes(remote) {
            input.extend_from_slice(local.as_ref());
            input.extend_from_slice(remote.as_ref());
        } else {
            input.extend_from_slice(remote.as_ref());
            input.extend_from_slice(local.as_ref());
        }
        assert(input@ =~= shared_key@ + canonical_order(local@, remote@));
        SessionKey(openssl::sha::sha256(input.as_slice()))
    }

    /// The key with the given bytes, if there are exactly 32 of them.
    pub fn from_bytes(bytes: &[u8]) -> (key: Option<Self>)
        ensures
            bytes@.len() == 32 ==> key is Some && key.unwrap()@ == bytes@,
            bytes@.len() != 32 ==> key is None,
    {
        match crate::bytes::block32(bytes) {
            Some(block) => Some(SessionKey(block)),
            None => None,
        }
    }

    pub fn as_ref(&self) -> (bytes: &[u8])
        ensures
            bytes@ == self@,
            bytes@.len() == 32,
    {
        &self.0
    }

    /// The printed form: the key in base64, between double quotes.
    pub fn to_string(&self) -> (printed: String)
        ensures
            printed@ == quoted_base64(self@),
    {
        print_bytes(&self.0)
    }
}

impl PartialEq for SessionKey {
    fn eq(&self, other: &Self) -> (same: bool) {
        crate::bytes::same_bytes(&self.0, &other.0)
    }
}

impl PartialEqSpecImpl for SessionKey {
    open spec fn obeys_eq_spec() -> bool {
        true
    }

    open spec fn eq_spec(&self, other: &Self) -> bool {
        self@ == other@
    }
}

impl Eq for SessionKey {

}

} // verus!
