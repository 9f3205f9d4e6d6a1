//! The random source of a generator, from the `rand` crate.
use vstd::prelude::*;

use rand::rngs::StdRng;
use rand::seq::SliceRandom;
use rand::Rng;
use rand::SeedableRng;

verus! {

#[verifier::external_type_specification]
#[verifier::external_body]
pub struct ExStdRng(StdRng);

/// Relies on `SliceRandom::choose` for slices: `None` when the slice is
/// empty, else a reference to one of its elements.
#[verifier::external_body]
pub(crate) fn choose_word<'a>(words: &'a Vec<String>, rng: &mut StdRng) -> (r: Option<&'a String>)
    ensures
        r is None <==> words@.len() == 0,
        r matches Some(w) ==> exists|i: int| 0 <= i < words@.len() && words@[i] == *w,
    no_unwind
{
    words.as_slice().choose(rng)
}

/// Relies on `Rng::gen_range` over an inclusive range: a value within it.
/// It panics on an empty range, which `requires` leaves out.
#[verifier::external_body]
pub(crate) fn draw_between(rng: &mut StdRng, low: u64, high: u64) -> (r: u64)
    requires
        low <= high,
    ensures
        low <= r <= high,
    no_unwind
{
    rng.gen_range(low..=high)
}

/// Relies on `SeedableRng::from_entropy`: a generator seeded from the
/// operating system's entropy source. It panics only where that source
/// fails, which no argument can rule out; nothing is promised of the seed.
#[verifier::external_body]
pub(crate) fn entropy_rng() -> StdRng {
    StdRng::from_entropy()
}

} // verus!
