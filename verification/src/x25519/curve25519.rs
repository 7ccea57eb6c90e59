//! Curve25519 key arithmetic, done by OpenSSL.
//!
//! OpenSSL may refuse any of these operations, so each function here returns
//! a `Result`. A refusal, or an output of a size other than the algorithm's,
//! is reported and never hidden.

use openssl::derive::Deriver;
use openssl::error::ErrorStack;
use openssl::pkey::{Id, PKey};
use openssl::sign::Signer;
use vstd::prelude::*;

verus! {

pub const PUBLIC_KEY_SIZE: usize = 32;

pub const SECRET_KEY_SIZE: usize = 32;

pub const PRIVATE_KEY_SIZE: usize = 64;

pub const SIGNATURE_SIZE: usize = 64;

/// Why a key operation gave no result.
#[derive(Clone, Copy, Debug, PartialEq, Eq, Structural)]
pub enum KeyError {
    /// An input held fewer bytes than the key it was to provide.
    InputTooShort,
    /// OpenSSL reported an error.
    Rejected,
    /// OpenSSL returned an output of another size than the algorithm's.
    UnexpectedLength,
}

/// `openssl::error::ErrorStack`, the errors OpenSSL reported for a call. Opaque.
#[verifier::external_type_specification]
#[verifier::external_body]
pub struct ExErrorStack(ErrorStack);

/// The X25519 public key of a 32-byte secret (RFC 7748).
pub uninterp spec fn x25519_public_key(secret: Seq<u8>) -> Seq<u8>;

/// The X25519 secret shared by the holder of `secret` and the holder of the
/// secret behind `peer_public` (RFC 7748).
pub uninterp spec fn x25519_shared_secret(secret: Seq<u8>, peer_public: Seq<u8>) -> Seq<u8>;

/// The Ed25519 public key of a 32-byte seed (RFC 8032).
pub uninterp spec fn ed25519_public_key(seed: Seq<u8>) -> Seq<u8>;

/// The Ed25519 signature of `message` under the key made from `seed` (RFC 8032).
pub uninterp spec fn ed25519_signature(seed: Seq<u8>, message: Seq<u8>) -> Seq<u8>;

/// `PKey::private_key_from_raw_bytes` with `Id::X25519`, then `raw_public_key`
/// on that key. Trusted: when both calls succeed, the bytes are the X25519
/// public key of `secret`. Nothing is claimed of when they succeed.
#[verifier::external_body]
fn x25519_raw_public_key(secret: &[u8]) -> (outcome: Result<Vec<u8>, ErrorStack>)
    ensures
        outcome matches Ok(public) ==> public@ == x25519_public_key(secret@),
{
    let key = PKey::private_key_from_raw_bytes(secret, Id::X25519)?;
    key.raw_public_key()
}

/// `PKey::private_key_from_raw_bytes` with `Id::ED25519`, then `raw_private_key`
/// on that key. The first makes a key "from its raw byte representation", the
/// second returns the "raw byte representation of a private key". Trusted:
/// when both calls succeed, the bytes that come back are the bytes that went
/// in.
#[verifier::external_body]
fn ed25519_raw_private_key(seed: &[u8]) -> (outcome: Result<Vec<u8>, ErrorStack>)
    ensures
        outcome matches Ok(private) ==> private@ == seed@,
{
    let key = PKey::private_key_from_raw_bytes(seed, Id::ED25519)?;
    key.raw_private_key()
}

/// `PKey::private_key_from_raw_bytes` with `Id::ED25519`, then `raw_public_key`
/// on that key. Trusted: when both calls succeed, the bytes are the Ed25519
/// public key of `seed`.
#[verifier::external_body]
fn ed25519_raw_public_key(seed: &[u8]) -> (outcome: Result<Vec<u8>, ErrorStack>)
    ensures
        outcome matches Ok(public) ==> public@ == ed25519_public_key(seed@),
{
    let key = PKey::private_key_from_raw_bytes(seed, Id::ED25519)?;
    key.raw_public_key()
}

/// `Deriver::new` on the X25519 private key made from `secret`, `set_peer`
/// with the X25519 public key made from `peer_public`, then `derive_to_vec`.
/// Trusted: when every call succeeds, the bytes are the X25519 shared secret
/// of the two keys.
#[verifier::external_body]
fn x25519_agree(secret: &[u8], peer_public: &[u8]) -> (outcome: Result<Vec<u8>, ErrorStack>)
    ensures
        outcome matches Ok(shared) ==> shared@ == x25519_shared_secret(secret@, peer_public@),
{
    let key = PKey::private_key_from_raw_bytes(secret, Id::X25519)?;
    let peer = PKey::public_key_from_raw_bytes(peer_public, Id::X25519)?;
    let mut deriver = Deriver::new(&key)?;
    deriver.set_peer(&peer)?;
    deriver.derive_to_vec()
}

/// `Signer::new_without_digest` on the Ed25519 private key made from `seed`,
/// then `sign_oneshot_to_vec`. Trusted: when every call succeeds, the bytes
/// are the Ed25519 signature of `message`, which is deterministic.
#[verifier::external_body]
fn ed25519_sign(seed: &[u8], message: &[u8]) -> (outcome: Result<Vec<u8>, ErrorStack>)
    ensures
        outcome matches Ok(signature) ==> signature@ == ed25519_signature(seed@, message@),
{
    let key = PKey::private_key_from_raw_bytes(seed, Id::ED25519)?;
    let mut signer = Signer::new_without_digest(&key)?;
    signer.sign_oneshot_to_vec(message)
}

/// What a key operation returns for an outcome reported by OpenSSL, as a
/// specification: the bytes when there are exactly `size` of them.
pub open spec fn checked_output(outcome: Result<Vec<u8>, ErrorStack>, size: nat) -> Result<
    Seq<u8>,
    KeyError,
> {
    match outcome {
        Ok(bytes) => if bytes@.len() == size {
            Ok(bytes@)
        } else {
            Err(KeyError::UnexpectedLength)
        },
        Err(_) => Err(KeyError::Rejected),
    }
}

/// Accepts an outcome of OpenSSL that is to hold 32 bytes.
pub fn output32(outcome: Result<Vec<u8>, ErrorStack>) -> (output: Result<[u8; 32], KeyError>)
    ensures
        match checked_output(outcome, 32) {
            Ok(bytes) => output is Ok && output.unwrap()@ == bytes,
            Err(error) => output == Err::<[u8; 32], KeyError>(error),
        },
{
    match outcome {
        Ok(bytes) => match crate::bytes::block32(bytes.as_slice()) {
            Some(block) => Ok(block),
            None => Err(KeyError::UnexpectedLength),
        },
        Err(_) => Err(KeyError::Rejected),
    }
}

/// Accepts an outcome of OpenSSL that is to hold 64 bytes.
pub fn output64(outcome: Result<Vec<u8>, ErrorStack>) -> (output: Result<[u8; 64], KeyError>)
    ensures
        match checked_output(outcome, 64) {
            Ok(bytes) => output is Ok && output.unwrap()@ == bytes,
            Err(error) => output == Err::<[u8; 64], KeyError>(error),
        },
{
    match outcome {
        Ok(bytes) => match crate::bytes::block64(bytes.as_slice()) {
            Some(block) => Ok(block),
            None => Err(KeyError::UnexpectedLength),
        },
        Err(_) => Err(KeyError::Rejected),
    }
}

/// Whether `error` is one that OpenSSL's outcome can lead to, given the bytes
/// that a successful call returns: `UnexpectedLength` comes only with an
/// output whose size is not `size`.
pub open spec fn refused(error: KeyError, output: Seq<u8>, size: nat) -> bool {
    ||| error == KeyError::Rejected
    ||| error == KeyError::UnexpectedLength && output.len() != size
}

/// The first `SECRET_KEY_SIZE` bytes of `bytes`, the part a key is made from.
pub open spec fn key_part(bytes: Seq<u8>) -> Seq<u8> {
    bytes.subrange(0, SECRET_KEY_SIZE as int)
}

/// An Ed25519 key pair made from the seed in the first 32 bytes of `secret`.
///
/// The private key is the seed, as OpenSSL hands it back, followed by the
/// public key; the public key is returned once more by itself.
///
/// Fails with `InputTooShort` exactly when `secret` has fewer than 32 bytes.
/// Otherwise the outcome is OpenSSL's: `UnexpectedLength` says that the
/// public key was not of 32 bytes, `Rejected` that OpenSSL reported an error.
pub fn create_key_pair(secret: &[u8]) -> (pair: Result<([u8; 64], [u8; 32]), KeyError>)
    ensures
        secret@.len() < SECRET_KEY_SIZE ==> pair == Err::<([u8; 64], [u8; 32]), KeyError>(
            KeyError::InputTooShort,
        ),
        secret@.len() >= SECRET_KEY_SIZE ==> match pair {
            Ok((private, public)) => {
                &&& private@ == key_part(secret@) + ed25519_public_key(key_part(secret@))
                &&& public@ == ed25519_public_key(key_part(secret@))
            },
            Err(error) => refused(error, ed25519_public_key(key_part(secret@)), 32),
        },
{
    if secret.len() < SECRET_KEY_SIZE {
        return Err(KeyError::InputTooShort);
    }
    let seed = &secret[0..SECRET_KEY_SIZE];
    let secret_half = match output32(ed25519_raw_private_key(seed)) {
        Ok(block) => block,
        Err(error) => {
            return Err(error);
        },
    };
    let public = match output32(ed25519_raw_public_key(seed)) {
        Ok(block) => block,
        Err(error) => {
            return Err(error);
        },
    };
    let mut private = [0u8; 64];
    let mut i: usize = 0;
    while i < 32
        invariant
            i <= 32,
            forall|j: int| 0 <= j < i ==> private@[j] == secret_half@[j],
            forall|j: int| 0 <= j < i ==> private@[32 + j] == public@[j],
        decreases 32 - i,
    {
        private[i] = secret_half[i];
        private[32 + i] = public[i];
        i += 1;
    }
    assert(private@ =~= secret_half@ + public@);
    Ok((private, public))
}

/// The X25519 public key of the secret in the first 32 bytes of `secret`.
///
/// Fails with `InputTooShort` exactly when `secret` has fewer than 32 bytes.
/// Otherwise the outcome is OpenSSL's: a key is the X25519 public key of
/// those bytes, `UnexpectedLength` says that OpenSSL returned another size,
/// `Rejected` that it reported an error.
pub fn calculate_public_key(secret: &[u8]) -> (public: Result<[u8; 32], KeyError>)
    ensures
        secret@.len() < SECRET_KEY_SIZE ==> public == Err::<[u8; 32], KeyError>(
            KeyError::InputTooShort,
        ),
        secret@.len() >= SECRET_KEY_SIZE ==> match public {
            Ok(key) => key@ == x25519_public_key(key_part(secret@)),
            Err(error) => refused(error, x25519_public_key(key_part(secret@)), 32),
        },
{
    if secret.len() < SECRET_KEY_SIZE {
        return Err(KeyError::InputTooShort);
    }
    output32(x25519_raw_public_key(&secret[0..SECRET_KEY_SIZE]))
}

/// The X25519 secret that the secret in the first 32 bytes of `secret`
/// shares with the public key in the first 32 bytes of `peer_public`.
///
/// Fails with `InputTooShort` exactly when either input has fewer than 32
/// bytes. Otherwise the outcome is OpenSSL's, which rejects among others a
/// peer key that leads to an all-zero secret.
pub fn create_shared_key(peer_public: &[u8], secret: &[u8]) -> (shared: Result<[u8; 32], KeyError>)
    ensures
        (peer_public@.len() < PUBLIC_KEY_SIZE || secret@.len() < SECRET_KEY_SIZE) ==> shared
            == Err::<[u8; 32], KeyError>(KeyError::InputTooShort),
        (peer_public@.len() >= PUBLIC_KEY_SIZE && secret@.len() >= SECRET_KEY_SIZE)
            ==> match shared {
            Ok(key) => key@ == x25519_shared_secret(key_part(secret@), key_part(peer_public@)),
            Err(error) => refused(
                error,
                x25519_shared_secret(key_part(secret@), key_part(peer_public@)),
                32,
            ),
        },
{
    if peer_public.len() < PUBLIC_KEY_SIZE || secret.len() < SECRET_KEY_SIZE {
        return Err(KeyError::InputTooShort);
    }
    output32(x25519_agree(&secret[0..SECRET_KEY_SIZE], &peer_public[0..PUBLIC_KEY_SIZE]))
}

/// The Ed25519 signature of `message` under the key made from the seed in the
/// first 32 bytes of `private_key`.
///
/// Fails with `InputTooShort` exactly when `private_key` has fewer than 32
/// bytes. Otherwise the outcome is OpenSSL's.
pub fn sign_message(private_key: &[u8], message: &[u8]) -> (signature: Result<[u8; 64], KeyError>)
    ensures
        private_key@.len() < SECRET_KEY_SIZE ==> signature == Err::<[u8; 64], KeyError>(
            KeyError::InputTooShort,
        ),
        private_key@.len() >= SECRET_KEY_SIZE ==> match signature {
            Ok(bytes) => bytes@ == ed25519_signature(key_part(private_key@), message@),
            Err(error) => refused(error, ed25519_signature(key_part(private_key@), message@), 64),
        },
{
    if private_key.len() < SECRET_KEY_SIZE {
        return Err(KeyError::InputTooShort);
    }
    output64(ed25519_sign(&private_key[0..SECRET_KEY_SIZE], message))
}

} // verus!
