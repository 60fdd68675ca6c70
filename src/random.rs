//! The pseudo-random generator that places food, from the `oorandom` crate.
use vstd::prelude::*;

use oorandom::Rand32;

verus! {

/// oorandom's 32-bit PCG generator, carried through opaque.
#[verifier::external_type_specification]
#[verifier::external_body]
pub struct ExRand32(Rand32);

/// Relies on oorandom's `Rand32::new`: it builds a generator from any seed.
/// Nothing is known of the generator's state.
pub assume_specification[ Rand32::new ](seed: u64) -> Rand32;

/// Relies on oorandom's `Rand32::rand_range`: for a non-empty range it returns
/// `(m >> 32) + start` where `m` is a 32-bit draw times the range's width, so a
/// value of the half-open range. It asserts that the range is not empty, and
/// a reversed range underflows its width.
pub assume_specification[ Rand32::rand_range ](rng: &mut Rand32, range: core::ops::Range<u32>) -> (r: u32)
    requires
        range.start < range.end,
    ensures
        range.start <= r < range.end,
;

} // verus!
