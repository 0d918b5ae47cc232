//! The simulation's one source of chance: lane generation draws object counts
//! and placement jitter from the process random generator.

use rand::Rng;
use vstd::prelude::*;

verus! {

/// Relies on rand::thread_rng and rand::Rng::gen_range on an `i64` range:
/// every value returned lies in `[lo, hi)`. gen_range panics on an empty
/// range, which the precondition rules out; thread_rng can still fail if the
/// operating system yields no entropy, an environmental failure on par with
/// running out of memory. Nothing is assumed of which in-range value comes
/// back.
#[verifier::external_body]
pub(crate) fn rand_in_range(lo: i64, hi: i64) -> (r: i64)
    requires
        lo < hi,
    ensures
        lo <= r < hi,
{
    rand::thread_rng().gen_range(lo..hi)
}

} // verus!
