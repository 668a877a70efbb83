//! The random draws that a serve is made of.

use rand::Rng;
use vstd::prelude::*;

verus! {

/// Calls `rand::random::<bool>()`, which draws from the generator of the
/// current thread. The body is not verified, and nothing is claimed of the
/// outcome.
#[verifier::external_body]
pub(crate) fn random_bool() -> bool {
    rand::random::<bool>()
}

/// Calls `Rng::gen_range` on `rand::thread_rng()` with the half-open range
/// `low..high`. The body is not verified. The call panics on an empty range,
/// which `requires` leaves out; all that is taken on trust of the outcome is
/// that it lies in the range.
#[verifier::external_body]
pub(crate) fn random_in_range(low: i64, high: i64) -> (r: i64)
    requires
        low < high,
    ensures
        low <= r < high,
{
    rand::thread_rng().gen_range(low..high)
}

} // verus!
