use crate::element::Element;
use crate::error::GymnasiumError;
use crate::message::{int_text, push_int, push_text};
use crate::random::Generator;
use crate::space::Space;
use vstd::prelude::*;

verus! {

/// Whether `n` values starting at `start` form a valid discrete domain of
/// element type `E`: at least one value, and `start + n` representable.
pub open spec fn discrete_bounds_ok<E: Element>(n: int, start: int) -> bool {
    n >= 1 && start + n <= E::max_int()
}

/// The message of the error for an empty domain.
pub open spec fn discrete_empty_message() -> Seq<char> {
    "The space must have at least one element"@
}

/// The message of the error for a domain whose end `start + n` exceeds `max`,
/// the greatest value of the element type.
pub open spec fn overflow_message(start: int, n: int, max: int) -> Seq<char> {
    "The space overflows the maximum value of the data type (start: "@ + int_text(start) + " + n: "@
        + int_text(n) + " > MAX: "@ + int_text(max) + ")"@
}

/// The text of `overflow_message(start, n, max)`.
pub(crate) fn overflow_text(start: i128, n: i128, max: i128) -> (r: String)
    requires
        start > i128::MIN,
        n > i128::MIN,
        max > i128::MIN,
    ensures
        r@ == overflow_message(start as int, n as int, max as int),
{
    let mut m = "The space overflows the maximum value of the data type (start: ".to_owned();
    push_int(&mut m, start);
    push_text(&mut m, " + n: ");
    push_int(&mut m, n);
    push_text(&mut m, " > MAX: ");
    push_int(&mut m, max);
    push_text(&mut m, ")");
    m
}

/// The integers `start, start + 1, ..., start + n - 1` of one element type.
#[derive(Clone, Debug)]
pub struct DiscreteSpace<E: Element> {
    rng: Generator,
    n: usize,
    start: E,
    end: E,
}

impl<E: Element> DiscreteSpace<E> {
    /// The number of values in the space.
    pub closed spec fn spec_n(&self) -> nat {
        self.n as nat
    }

    /// The least value of the space.
    pub closed spec fn spec_start(&self) -> int {
        self.start.int_value()
    }

    /// One past the greatest value of the space.
    pub closed spec fn spec_end(&self) -> int {
        self.end.int_value()
    }

    /// The seed the space's generator was last seeded with, if any.
    pub closed spec fn spec_seed(&self) -> Option<u64> {
        self.rng.spec_seeded_with()
    }

    /// Builds the space of the `n` values from `start` on, drawing samples
    /// from a generator seeded with `seed` (or from entropy when `None`).
    /// Fails with `InvalidSpace` when `n` is zero, and otherwise when
    /// `start + n` exceeds the greatest value of `E`, naming `start`, `n` and
    /// that greatest value.
    pub fn new(n: usize, start: E, seed: Option<u64>) -> (r: Result<Self, GymnasiumError>)
        ensures
            r is Ok <==> discrete_bounds_ok::<E>(n as int, start.int_value()),
            r matches Ok(s) ==> s.wf() && s.spec_n() == n && s.spec_start() == start.int_value()
                && s.spec_end() == start.int_value() + n && s.spec_end() <= E::max_int()
                && s.spec_seed() == seed,
            n == 0 ==> (r matches Err(GymnasiumError::InvalidSpace(m)) && m@ == discrete_empty_message()),
            n != 0 && start.int_value() + n > E::max_int() ==> (r matches Err(GymnasiumError::InvalidSpace(m))
                && m@ == overflow_message(start.int_value(), n as int, E::max_int())),
    {
        if n == 0 {
            let m = "The space must have at least one element".to_owned();
            return Err(GymnasiumError::InvalidSpace(m));
        }
        let s = start.to_wide();
        let max = E::max_wide();
        proof {
            start.lemma_range();
        }
        if n as i128 > max - s {
            return Err(GymnasiumError::InvalidSpace(overflow_text(s, n as i128, max)));
        }
        let end = E::from_wide(s + n as i128);
        Ok(DiscreteSpace { rng: Generator::new(seed), n, start, end })
    }

    /// The number of values in the space.
    pub fn n(&self) -> (r: usize)
        ensures
            r == self.spec_n(),
    {
        self.n
    }

    /// The least value of the space.
    pub fn start(&self) -> (r: E)
        ensures
            r.int_value() == self.spec_start(),
    {
        self.start
    }

    /// One past the greatest value of the space.
    pub fn end(&self) -> (r: E)
        ensures
            r.int_value() == self.spec_end(),
    {
        self.end
    }

    /// The extents of the space's values: none, as each value is a scalar.
    pub fn shape(&self) -> (r: Vec<usize>)
        ensures
            r@.len() == 0,
    {
        Vec::new()
    }

    /// Replaces the random generator by one seeded with `seed`; the bounds
    /// stay as they were.
    pub fn seed(&mut self, seed: u64)
        requires
            old(self).wf(),
        ensures
            final(self).wf(),
            final(self).spec_n() == old(self).spec_n(),
            final(self).spec_start() == old(self).spec_start(),
            final(self).spec_end() == old(self).spec_end(),
            final(self).spec_seed() == Some(seed),
    {
        self.rng = Generator::new(Some(seed));
    }
}

impl<E: Element> Space for DiscreteSpace<E> {
    type Value = E;

    closed spec fn wf(&self) -> bool {
        discrete_bounds_ok::<E>(self.n as int, self.start.int_value())
            && self.end.int_value() == self.start.int_value() + self.n
    }

    open spec fn spec_contains(&self, value: E) -> bool {
        self.spec_start() <= value.int_value() < self.spec_end()
    }

    open spec fn spec_sampled(&self, value: E) -> bool {
        self.spec_contains(value)
    }

    fn contains(&self, value: &E) -> (r: bool) {
        let v = value.to_wide();
        v >= self.start.to_wide() && v < self.end.to_wide()
    }

    fn sample(&mut self) -> (r: E) {
        proof {
            self.start.lemma_range();
            self.end.lemma_range();
        }
        let w = self.rng.draw_inclusive(self.start.to_wide(), self.end.to_wide() - 1);
        E::from_wide(w)
    }
}

/// Every constructed discrete space holds at least one value, and its end
/// `start + n` does not exceed the greatest value of the element type.
pub proof fn lemma_discrete_bounds<E: Element>(space: &DiscreteSpace<E>)
    requires
        space.wf(),
    ensures
        space.spec_n() >= 1,
        space.spec_start() + space.spec_n() <= E::max_int(),
        space.spec_start() < space.spec_end() <= E::max_int(),
{
}

} // verus!
