use vstd::prelude::*;
use rand::{Rng, RngCore};

verus! {

/// Relies on rand's `thread_rng().fill_bytes`: it overwrites the buffer with
/// secure random bytes and leaves its length alone. It panics if the operating
/// system's random source fails.
#[verifier::external_body]
pub(crate) fn fill_random(buf: &mut Vec<u8>)
    ensures
        final(buf)@.len() == old(buf)@.len(),
{
    rand::thread_rng().fill_bytes(buf.as_mut_slice())
}

/// Relies on rand's `thread_rng().gen::<u64>()`: a secure random 64-bit value.
#[verifier::external_body]
pub(crate) fn random_u64() -> (r: u64) {
    rand::thread_rng().gen()
}

} // verus!
