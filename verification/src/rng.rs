use vstd::prelude::*;

verus! {

/// Relies on rand: `rand::thread_rng()` yields a seeded generator and
/// `Rng::gen_range(0..bound)` samples uniformly from `[0, bound)`; it panics
/// only on an empty range, which the precondition rules out. Nothing beyond
/// the range of the result can be promised of a random sample.
#[verifier::external_body]
pub(crate) fn random_below(bound: u64) -> (r: u64)
    requires
        bound >= 1,
    ensures
        r < bound,
{
    rand::Rng::gen_range(&mut rand::thread_rng(), 0..bound)
}

} // verus!
