use crate::box_space::BoxSpace;
use crate::element::Element;
use crate::error::GymnasiumError;
use crate::message::{int_text, push_int, push_text};
use crate::ndarray::{copy_dims, checked_size, shape_size, NdArray};
use crate::random::Generator;
use crate::space::Space;
use vstd::prelude::*;

verus! {

/// The message of the error for a lower bound `low` above the upper bound
/// `high`.
pub open spec fn inverted_message(low: int, high: int) -> Seq<char> {
    "The lower bound cannot be greater than the upper bound (low: "@ + int_text(low) + " > high: "@
        + int_text(high) + ")"@
}

/// The arrays of one shape whose every element lies in `[low, high]`, with
/// both ends included.
#[derive(Clone, Debug)]
pub struct BoxSpaceIdentical<E: Element> {
    rng: Generator,
    shape: Vec<usize>,
    size: usize,
    low: E,
    high: E,
}

impl<E: Element> BoxSpaceIdentical<E> {
    /// The seed the space's generator was last seeded with, if any.
    pub closed spec fn spec_seed(&self) -> Option<u64> {
        self.rng.spec_seeded_with()
    }

    /// The extents of the axes of the space's values.
    pub closed spec fn spec_shape(&self) -> Seq<usize> {
        self.shape@
    }

    /// The lower bound of every element.
    pub closed spec fn spec_low(&self) -> int {
        self.low.int_value()
    }

    /// The upper bound of every element.
    pub closed spec fn spec_high(&self) -> int {
        self.high.int_value()
    }

    /// The number of elements of each value.
    pub closed spec fn spec_size(&self) -> nat {
        self.size as nat
    }

    /// Builds the box of shape `shape` with bounds `[low, high]` on every
    /// element, drawing samples from a generator seeded with `seed` (or from
    /// entropy when `None`). Fails with `InvalidSpace` when `low > high`,
    /// naming both bounds.
    pub fn new(low: E, high: E, shape: Vec<usize>, seed: Option<u64>) -> (r: Result<
        Self,
        GymnasiumError,
    >)
        requires
            shape_size(shape@) <= usize::MAX,
        ensures
            r is Ok <==> low.int_value() <= high.int_value(),
            r matches Ok(s) ==> s.wf() && s.spec_low() == low.int_value() && s.spec_high()
                == high.int_value() && s.spec_shape() == shape@ && s.spec_low() <= s.spec_high()
                && s.spec_seed() == seed,
            low.int_value() > high.int_value() ==> (r matches Err(GymnasiumError::InvalidSpace(m)) && m@
                == inverted_message(low.int_value(), high.int_value())),
    {
        let lw = low.to_wide();
        let hw = high.to_wide();
        proof {
            low.lemma_range();
            high.lemma_range();
        }
        if lw > hw {
            let mut m = "The lower bound cannot be greater than the upper bound (low: ".to_owned();
            push_int(&mut m, lw);
            push_text(&mut m, " > high: ");
            push_int(&mut m, hw);
            push_text(&mut m, ")");
            return Err(GymnasiumError::InvalidSpace(m));
        }
        let size = match checked_size(&shape) {
            Some(k) => k,
            None => 0,
        };
        Ok(BoxSpaceIdentical { rng: Generator::new(seed), shape, size, low, high })
    }

    /// The lower bound of every element.
    pub fn low(&self) -> (r: E)
        ensures
            r.int_value() == self.spec_low(),
    {
        self.low
    }

    /// The upper bound of every element.
    pub fn high(&self) -> (r: E)
        ensures
            r.int_value() == self.spec_high(),
    {
        self.high
    }

    /// The extents of the axes of the space's values.
    pub fn shape(&self) -> (r: &Vec<usize>)
        ensures
            r@ == self.spec_shape(),
    {
        &self.shape
    }

    /// Replaces the random generator by one seeded with `seed`; the bounds
    /// stay as they were.
    pub fn seed(&mut self, seed: u64)
        requires
            old(self).wf(),
        ensures
            final(self).wf(),
            final(self).spec_low() == old(self).spec_low(),
            final(self).spec_high() == old(self).spec_high(),
            final(self).spec_shape() == old(self).spec_shape(),
            final(self).spec_seed() == Some(seed),
    {
        self.rng = Generator::new(Some(seed));
    }

    /// The same space, as the box variant that holds it.
    pub fn into_enum(self) -> (r: BoxSpace<E>)
        ensures
            r == BoxSpace::Identical(self),
    {
        BoxSpace::Identical(self)
    }
}

impl<E: Element> Space for BoxSpaceIdentical<E> {
    type Value = NdArray<E>;

    open spec fn wf(&self) -> bool {
        &&& self.spec_low() <= self.spec_high()
        &&& self.spec_size() == shape_size(self.spec_shape())
    }

    open spec fn spec_contains(&self, value: NdArray<E>) -> bool {
        &&& value.spec_shape() == self.spec_shape()
        &&& value.spec_data().len() == self.spec_size()
        &&& forall|i: int|
            0 <= i < value.spec_data().len() ==> self.spec_low() <= #[trigger] value.spec_data()[i].int_value()
                <= self.spec_high()
    }

    open spec fn spec_sampled(&self, value: NdArray<E>) -> bool {
        self.spec_contains(value)
    }

    fn contains(&self, value: &NdArray<E>) -> (r: bool) {
        if !value.has_shape(&self.shape) || value.len() != self.size {
            return false;
        }
        let data = value.as_vec();
        let low = self.low.to_wide();
        let high = self.high.to_wide();
        let mut i: usize = 0;
        while i < data.len()
            invariant
                data@ == value.spec_data(),
                low == self.spec_low(),
                high == self.spec_high(),
                0 <= i <= data.len(),
                forall|j: int| 0 <= j < i ==> low <= #[trigger] data@[j].int_value() <= high,
            decreases data.len() - i,
        {
            let v = data[i].to_wide();
            if v < low || v > high {
                return false;
            }
            i = i + 1;
        }
        true
    }

    fn sample(&mut self) -> (r: NdArray<E>) {
        let low = self.low.to_wide();
        let high = self.high.to_wide();
        proof {
            self.low.lemma_range();
            self.high.lemma_range();
        }
        let mut data: Vec<E> = Vec::new();
        let mut i: usize = 0;
        while i < self.size
            invariant
                self.wf(),
                self.low == old(self).low,
                self.high == old(self).high,
                self.shape == old(self).shape,
                self.size == old(self).size,
                low == self.spec_low(),
                high == self.spec_high(),
                self.spec_low() >= E::min_int(),
                self.spec_high() <= E::max_int(),
                0 <= i <= self.size,
                data@.len() == i,
                forall|j: int| 0 <= j < i ==> low <= #[trigger] data@[j].int_value() <= high,
            decreases self.size - i,
        {
            let w = self.rng.draw_inclusive(low, high);
            data.push(E::from_wide(w));
            i = i + 1;
        }
        NdArray::from_parts(copy_dims(&self.shape), data)
    }
}

/// In every constructed box with one bound pair, `low <= high`.
pub proof fn lemma_identical_bounds<E: Element>(space: &BoxSpaceIdentical<E>)
    requires
        space.wf(),
    ensures
        space.spec_low() <= space.spec_high(),
{
}

} // verus!
