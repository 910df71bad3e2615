//! The `rand48` family of pseudo-random numbers, drawn from the thread's
//! generator of the `rand` crate.

use vstd::prelude::*;
use rand::Rng;

verus! {

/// `rand::thread_rng().sample(Uniform::new_inclusive(low, high))`: a number
/// drawn uniformly from the closed range `[low, high]`. The draw is random:
/// only that it lies in the range is stated. `new_inclusive` panics when
/// `low > high`, which `requires` leaves out.
#[verifier::external_body]
fn sample_inclusive(low: i64, high: i64) -> (r: i64)
    requires
        low <= high,
    ensures
        low <= r <= high,
{
    rand::thread_rng().sample(rand::distributions::Uniform::new_inclusive(low, high))
}

/// `lrand48`: a random number in `[0, 2^31)`.
pub fn lrand48() -> (r: i64)
    ensures
        0 <= r <= i32::MAX,
{
    sample_inclusive(0, i32::MAX as i64)
}

/// `mrand48`: a random number in `[-2^31, 2^31)`.
pub fn mrand48() -> (r: i64)
    ensures
        i32::MIN <= r <= i32::MAX,
{
    sample_inclusive(i32::MIN as i64, i32::MAX as i64)
}

} // verus!
