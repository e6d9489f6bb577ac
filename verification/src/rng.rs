use vstd::prelude::*;
use rand::Rng;
use rand::RngCore;

verus! {

/// Relies on rand's `Rng::gen_range` over `0..bound`: the sample is drawn
/// uniformly from the range, so it is strictly below `bound`; `bound > 0`
/// keeps the range non-empty, on which `gen_range` would panic.
#[verifier::external_body]
pub(crate) fn random_below(bound: u64) -> (r: u64)
    requires
        bound > 0,
    ensures
        r < bound,
{
    rand::thread_rng().gen_range(0..bound)
}

/// Relies on rand's `RngCore::fill_bytes` on the thread-local generator: it
/// overwrites the given buffer in place with random bytes, leaving its
/// length unchanged.
#[verifier::external_body]
pub(crate) fn fill_random(buf: &mut Vec<u8>)
    ensures
        final(buf)@.len() == old(buf)@.len(),
{
    rand::thread_rng().fill_bytes(buf.as_mut_slice());
}

} // verus!
