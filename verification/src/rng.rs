use vstd::prelude::*;

verus! {

/// Draws a number uniformly from `low..high` with `rand::random_range`, which
/// uses the thread-local generator of the `rand` crate. `rand` panics on an
/// empty range, hence `low < high`. The contract states only that the number
/// lies in the half-open range; which number comes out is left open.
#[verifier::external_body]
pub(crate) fn random_in(low: u32, high: u32) -> (r: u32)
    requires
        low < high,
    ensures
        low <= r < high,
{
    rand::random_range(low..high)
}

} // verus!
