use vstd::prelude::*;
use rand::Rng;

verus! {

/// A random index below `bound`, from `rand::Rng::gen_range` on the thread's
/// random number generator.
///
/// The crate documents that the range must not be empty (it panics
/// otherwise) and that the value lies in it; which value comes back is
/// chance and is not stated.
#[verifier::external_body]
pub fn random_below(bound: usize) -> (res: usize)
    requires
        bound > 0,
    ensures
        res < bound,
{
    rand::thread_rng().gen_range(0..bound)
}

} // verus!
