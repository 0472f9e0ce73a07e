//! The one source of randomness the game uses.

use vstd::prelude::*;

verus! {

/// Relies on `rand::random_range`: a sample from the thread-local
/// generator, uniform over the half-open range; it panics only when
/// the range is empty.
#[verifier::external_body]
pub(crate) fn random_in_range(low: u16, high: u16) -> (r: u16)
    requires
        low < high,
    ensures
        low <= r < high,
{
    rand::random_range(low..high)
}

} // verus!
