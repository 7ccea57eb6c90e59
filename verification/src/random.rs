//! Random blocks drawn from `rand`'s thread-local generator.

use rand::rngs::ThreadRng;
use rand::RngCore;
use vstd::prelude::*;

verus! {

/// `rand::rngs::ThreadRng`, the handle to the thread-local generator. Opaque.
#[verifier::external_type_specification]
#[verifier::external_body]
pub struct ExThreadRng(ThreadRng);

/// `RngCore::fill_bytes` on a fresh 32-byte buffer. Trusted only to return;
/// nothing is claimed of the bytes, which differ from call to call.
#[verifier::external_body]
pub(crate) fn random_block(rng: &mut ThreadRng) -> (block: [u8; 32]) {
    let mut block = [0u8; 32];
    rng.fill_bytes(&mut block);
    block
}

} // verus!
