use rand::distributions::{Alphanumeric, DistString};
use rand::rngs::SmallRng;
use rand::{Rng, SeedableRng};
use vstd::prelude::*;

verus! {

/// The pseudo-random generator that each space owns.
#[verifier::external_type_specification]
#[verifier::external_body]
pub struct ExSmallRng(SmallRng);

/// Relies on rand's derived `Clone` for `SmallRng`, which copies the
/// generator's state.
pub assume_specification[ <SmallRng as Clone>::clone ](rng: &SmallRng) -> SmallRng;

/// Relies on rand's `SeedableRng::seed_from_u64` for `SmallRng`: a generator
/// whose stream is fixed by `seed`.
#[verifier::external_body]
fn seeded_rng(seed: u64) -> (r: SmallRng) {
    SmallRng::seed_from_u64(seed)
}

/// Relies on rand's `SeedableRng::from_entropy` for `SmallRng`: a generator
/// seeded from the operating system's entropy source. rand panics where the
/// system cannot supply entropy at all; that is a failure of the environment,
/// like running out of memory, not of any input.
#[verifier::external_body]
fn entropy_rng() -> (r: SmallRng) {
    SmallRng::from_entropy()
}

/// Relies on rand's `Rng::gen_range` on an inclusive range of `i128`: the
/// draw lies in `[low, high]`; it panics on an empty range, which `requires`
/// rules out.
#[verifier::external_body]
fn gen_inclusive(rng: &mut SmallRng, low: i128, high: i128) -> (r: i128)
    requires
        low <= high,
    ensures
        low <= r <= high,
{
    rng.gen_range(low..=high)
}

/// Relies on rand's `Rng::gen` for `bool`: a fair coin flip.
#[verifier::external_body]
fn gen_bool(rng: &mut SmallRng) -> (r: bool) {
    rng.gen::<bool>()
}

/// Whether `c` is an ASCII letter or digit.
pub open spec fn is_alphanumeric(c: char) -> bool {
    ('0' <= c <= '9') || ('A' <= c <= 'Z') || ('a' <= c <= 'z')
}

/// Relies on rand's `DistString::sample_string` for `Alphanumeric`: `len`
/// characters, each drawn from the ASCII letters and digits.
#[verifier::external_body]
fn gen_alphanumeric(rng: &mut SmallRng, len: usize) -> (r: String)
    ensures
        r@.len() == len,
        forall|i: int| 0 <= i < len ==> is_alphanumeric(#[trigger] r@[i]),
{
    Alphanumeric.sample_string(rng, len)
}

/// A space's random generator, together with the seed it was last seeded
/// with (`None` when it was seeded from system entropy).
#[derive(Clone, Debug)]
pub struct Generator {
    rng: SmallRng,
    seeded_with: Option<u64>,
}

impl Generator {
    /// The seed the generator was last seeded with, if any.
    pub closed spec fn spec_seeded_with(&self) -> Option<u64> {
        self.seeded_with
    }

    /// A generator seeded with `seed` where one is given, and from system
    /// entropy otherwise.
    pub fn new(seed: Option<u64>) -> (r: Generator)
        ensures
            r.spec_seeded_with() == seed,
    {
        match seed {
            Some(s) => Generator { rng: seeded_rng(s), seeded_with: Some(s) },
            None => Generator { rng: entropy_rng(), seeded_with: None },
        }
    }

    /// The seed the generator was last seeded with, if any.
    pub fn seeded_with(&self) -> (r: Option<u64>)
        ensures
            r == self.spec_seeded_with(),
    {
        self.seeded_with
    }

    /// Draws an integer uniformly from `[low, high]`.
    pub fn draw_inclusive(&mut self, low: i128, high: i128) -> (r: i128)
        requires
            low <= high,
        ensures
            low <= r <= high,
            final(self).spec_seeded_with() == old(self).spec_seeded_with(),
    {
        gen_inclusive(&mut self.rng, low, high)
    }

    /// Flips a fair coin.
    pub fn draw_bool(&mut self) -> (r: bool)
        ensures
            final(self).spec_seeded_with() == old(self).spec_seeded_with(),
    {
        gen_bool(&mut self.rng)
    }

    /// Draws `len` characters, each an ASCII letter or digit.
    pub fn draw_alphanumeric(&mut self, len: usize) -> (r: String)
        ensures
            r@.len() == len,
            forall|i: int| 0 <= i < len ==> is_alphanumeric(#[trigger] r@[i]),
            final(self).spec_seeded_with() == old(self).spec_seeded_with(),
    {
        gen_alphanumeric(&mut self.rng, len)
    }
}

} // verus!
