use rand::Rng;
use vstd::prelude::*;

verus! {

/// Draws an integer uniformly from `lo..=hi`.
///
/// Relies on `rand::thread_rng` and `rand::Rng::gen_range` with an inclusive
/// range: for a non-empty range the sample lies between both ends; an empty
/// range panics, which `requires` rules out.
#[verifier::external_body]
pub(crate) fn roll_between(lo: i32, hi: i32) -> (r: i32)
    requires
        lo <= hi,
    ensures
        lo <= r <= hi,
{
    rand::thread_rng().gen_range(lo..=hi)
}

} // verus!
