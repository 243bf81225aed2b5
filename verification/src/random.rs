//! Drawing integers from the standard generator of the `rand` crate. The
//! caller seeds the generator once and hands it in; a draw reads nothing but
//! the generator's own state.

use rand::rngs::StdRng;
use rand::Rng;
use vstd::prelude::*;

verus! {

/// The standard generator of `rand`, carried through as an opaque value.
#[verifier::external_type_specification]
#[verifier::external_body]
pub struct ExStdRng(rand::rngs::StdRng);

/// Draws an integer between `low` and `high`, both included.
///
/// Calls `rand::Rng::gen_range` on a `StdRng` with the inclusive range
/// `low..=high`. That function panics on an empty range, which `requires`
/// leaves out. For any other range of 64-bit integers it returns `low` plus
/// an offset that is smaller than the number of values in the range, or any
/// value at all where the range holds every one, so the value lies within
/// the bounds. The generator computes its numbers from its seed alone: it is
/// never seeded anew, so a draw has nothing to fail on. Nothing is claimed
/// about which value of the range comes out.
#[verifier::external_body]
pub(crate) fn uniform_inclusive(rng: &mut StdRng, low: u64, high: u64) -> (value: u64)
    requires
        low <= high,
    ensures
        low <= value <= high,
{
    rng.gen_range(low..=high)
}

/// The offsets at which a block of `len` bytes may start in a destination of
/// `size` bytes: from zero up to this bound, which is zero where the block is
/// longer than the destination.
pub open spec fn last_offset(size: u64, len: u64) -> u64 {
    if len <= size {
        (size - len) as u64
    } else {
        0
    }
}

} // verus!
