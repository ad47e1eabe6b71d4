//! The random number generator of bracket-lib, declared to Verus with the
//! contracts of the two of its methods that the game calls.
use bracket_lib::prelude::RandomNumberGenerator;
use vstd::prelude::*;

verus! {

/// bracket-lib's xorshift random number generator, carried through opaque.
#[verifier::external_type_specification]
#[verifier::external_body]
pub struct ExRandomNumberGenerator(RandomNumberGenerator);

/// Calls `RandomNumberGenerator::new`, which seeds the generator from the
/// operating system's entropy (or the clock). Nothing is claimed of the result.
#[verifier::external_body]
pub(crate) fn new_rng() -> (rng: RandomNumberGenerator) {
    RandomNumberGenerator::new()
}

/// Calls `RandomNumberGenerator::range(lo, hi)`, which draws a value with
/// `rand`'s `gen_range(lo..hi)`: the result is at least `lo` and below `hi`.
/// `gen_range` panics on an empty range, so `lo < hi` is required.
#[verifier::external_body]
pub(crate) fn rng_range(rng: &mut RandomNumberGenerator, lo: i32, hi: i32) -> (r: i32)
    requires
        lo < hi,
    ensures
        lo <= r < hi,
{
    rng.range(lo, hi)
}

/// Draws a value from `lo` up to (not including) `hi` and writes it at the
/// end of `draws`, the record of every value the game's generator has given.
pub(crate) fn draw(rng: &mut RandomNumberGenerator, draws: &mut Ghost<Seq<int>>, lo: i32, hi: i32) -> (r: i32)
    requires
        lo < hi,
    ensures
        lo <= r < hi,
        final(draws)@ == old(draws)@.push(r as int),
{
    let r = rng_range(rng, lo, hi);
    proof {
        draws@ = draws@.push(r as int);
    }
    r
}

} // verus!
