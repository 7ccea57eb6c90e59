//! SHA-256, computed by OpenSSL.

use vstd::prelude::*;

verus! {

/// The SHA-256 digest of `data` (FIPS 180-4).
pub uninterp spec fn sha256_digest(data: Seq<u8>) -> Seq<u8>;

/// `openssl::sha::sha256` hands the whole input to OpenSSL's one-shot `SHA256`
/// and returns the 32 bytes it wrote. Trusted: the result is the SHA-256
/// digest of the input, a function of the input bytes alone.
pub assume_specification[ openssl::sha::sha256 ](data: &[u8]) -> (digest: [u8; 32])
    ensures
        digest@ == sha256_digest(data@),
;

} // verus!
