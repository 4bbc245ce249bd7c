use crate::box_space::BoxSpace;
use crate::element::Element;
use crate::error::GymnasiumError;
use crate::message::{int_text, push_int, push_text};
use crate::ndarray::{copy_dims, NdArray};
use crate::random::Generator;
use crate::space::Space;
use vstd::prelude::*;

verus! {

/// Whether every element of `low` is at most the element of `high` at the
/// same index.
pub open spec fn bounds_ordered<E: Element>(low: Seq<E>, high: Seq<E>) -> bool {
    forall|i: int| 0 <= i < low.len() ==> (#[trigger] low[i]).int_value() <= high[i].int_value()
}

/// Whether `i` is the first index at which the lower bound exceeds the upper
/// bound.
pub open spec fn first_inverted<E: Element>(low: Seq<E>, high: Seq<E>, i: int) -> bool {
    &&& 0 <= i < low.len()
    &&& low[i].int_value() > high[i].int_value()
    &&& bounds_ordered(low.subrange(0, i), high.subrange(0, i))
}

/// The message of the error for a lower bound `low` above the upper bound
/// `high` at `index`.
pub open spec fn inverted_at_message(low: int, high: int, index: int) -> Seq<char> {
    "The lower bound cannot be greater than the upper bound (low: "@ + int_text(low) + " > high: "@
        + int_text(high) + " at index "@ + int_text(index) + ")"@
}

/// The arrays of one shape whose element at each index lies in the bounds at
/// that index, `[low[i], high[i]]`, with both ends included.
#[derive(Clone, Debug)]
pub struct BoxSpaceIndependent<E: Element> {
    rng: Generator,
    low: NdArray<E>,
    high: NdArray<E>,
}

impl<E: Element> BoxSpaceIndependent<E> {
    /// The seed the space's generator was last seeded with, if any.
    pub closed spec fn spec_seed(&self) -> Option<u64> {
        self.rng.spec_seeded_with()
    }

    /// The lower bounds.
    pub closed spec fn spec_low(&self) -> NdArray<E> {
        self.low
    }

    /// The upper bounds.
    pub closed spec fn spec_high(&self) -> NdArray<E> {
        self.high
    }

    /// Builds the box whose element at each index lies between the elements
    /// of `low` and `high` at that index, drawing samples from a generator
    /// seeded with `seed` (or from entropy when `None`). Fails with
    /// `InvalidSpace` when some lower bound exceeds its upper bound, naming
    /// the first such index and its two bounds.
    pub fn new(low: NdArray<E>, high: NdArray<E>, seed: Option<u64>) -> (r: Result<
        Self,
        GymnasiumError,
    >)
        requires
            low.wf(),
            high.wf(),
            low.spec_shape() == high.spec_shape(),
        ensures
            r is Ok <==> bounds_ordered(low.spec_data(), high.spec_data()),
            r matches Ok(s) ==> s.wf() && s.spec_low() == low && s.spec_high() == high
                && bounds_ordered(s.spec_low().spec_data(), s.spec_high().spec_data())
                && s.spec_seed() == seed,
            r matches Err(e) ==> e is InvalidSpace,
            r matches Err(GymnasiumError::InvalidSpace(m)) ==> exists|i: int|
                #[trigger] first_inverted(low.spec_data(), high.spec_data(), i) && m@ == inverted_at_message(
                    low.spec_data()[i].int_value(),
                    high.spec_data()[i].int_value(),
                    i,
                ),
    {
        let lo = low.as_vec();
        let hi = high.as_vec();
        let mut i: usize = 0;
        while i < lo.len()
            invariant
                lo@ == low.spec_data(),
                hi@ == high.spec_data(),
                lo@.len() == hi@.len(),
                0 <= i <= lo.len(),
                bounds_ordered(lo@.subrange(0, i as int), hi@.subrange(0, i as int)),
            decreases lo.len() - i,
        {
            let lw = lo[i].to_wide();
            let hw = hi[i].to_wide();
            proof {
                lo@[i as int].lemma_range();
                hi@[i as int].lemma_range();
            }
            if lw > hw {
                let mut m = "The lower bound cannot be greater than the upper bound (low: ".to_owned();
                push_int(&mut m, lw);
                push_text(&mut m, " > high: ");
                push_int(&mut m, hw);
                push_text(&mut m, " at index ");
                push_int(&mut m, i as i128);
                push_text(&mut m, ")");
                assert(first_inverted(low.spec_data(), high.spec_data(), i as int));
                return Err(GymnasiumError::InvalidSpace(m));
            }
            proof {
                assert forall|j: int| 0 <= j < i + 1 implies (#[trigger] lo@.subrange(
                    0,
                    i + 1,
                )[j]).int_value() <= hi@.subrange(0, i + 1)[j].int_value() by {
                    if j < i {
                        assert(lo@.subrange(0, i as int)[j] == lo@.subrange(0, i + 1)[j]);
                        assert(hi@.subrange(0, i as int)[j] == hi@.subrange(0, i + 1)[j]);
                    }
                }
            }
            i = i + 1;
        }
        assert(lo@.subrange(0, i as int) =~= lo@);
        assert(hi@.subrange(0, i as int) =~= hi@);
        Ok(BoxSpaceIndependent { rng: Generator::new(seed), low, high })
    }

    /// The lower bounds.
    pub fn low(&self) -> (r: &NdArray<E>)
        ensures
            *r == self.spec_low(),
    {
        &self.low
    }

    /// The upper bounds.
    pub fn high(&self) -> (r: &NdArray<E>)
        ensures
            *r == self.spec_high(),
    {
        &self.high
    }

    /// The extents of the axes of the space's values.
    pub fn shape(&self) -> (r: &Vec<usize>)
        ensures
            r@ == self.spec_low().spec_shape(),
    {
        self.low.shape()
    }

    /// Replaces the random generator by one seeded with `seed`; the bounds
    /// stay as they were.
    pub fn seed(&mut self, seed: u64)
        requires
            old(self).wf(),
        ensures
            final(self).wf(),
            final(self).spec_low() == old(self).spec_low(),
            final(self).spec_high() == old(self).spec_high(),
            final(self).spec_seed() == Some(seed),
    {
        self.rng = Generator::new(Some(seed));
    }

    /// The same space, as the box variant that holds it.
    pub fn into_enum(self) -> (r: BoxSpace<E>)
        ensures
            r == BoxSpace::Independent(self),
    {
        BoxSpace::Independent(self)
    }
}

impl<E: Element> Space for BoxSpaceIndependent<E> {
    type Value = NdArray<E>;

    open spec fn wf(&self) -> bool {
        &&& self.spec_low().wf()
        &&& self.spec_high().wf()
        &&& self.spec_low().spec_shape() == self.spec_high().spec_shape()
        &&& bounds_ordered(self.spec_low().spec_data(), self.spec_high().spec_data())
    }

    open spec fn spec_contains(&self, value: NdArray<E>) -> bool {
        &&& value.spec_shape() == self.spec_low().spec_shape()
        &&& value.spec_data().len() == self.spec_low().spec_data().len()
        &&& forall|i: int|
            0 <= i < value.spec_data().len() ==> self.spec_low().spec_data()[i].int_value()
                <= #[trigger] value.spec_data()[i].int_value()
                <= self.spec_high().spec_data()[i].int_value()
    }

    open spec fn spec_sampled(&self, value: NdArray<E>) -> bool {
        self.spec_contains(value)
    }

    fn contains(&self, value: &NdArray<E>) -> (r: bool) {
        if !value.has_shape(self.low.shape()) || value.len() != self.low.len() {
            return false;
        }
        let data = value.as_vec();
        let lo = self.low.as_vec();
        let hi = self.high.as_vec();
        let mut i: usize = 0;
        while i < data.len()
            invariant
                data@ == value.spec_data(),
                lo@ == self.spec_low().spec_data(),
                hi@ == self.spec_high().spec_data(),
                data@.len() == lo@.len(),
                lo@.len() == hi@.len(),
                0 <= i <= data.len(),
                forall|j: int|
                    0 <= j < i ==> lo@[j].int_value() <= #[trigger] data@[j].int_value()
                        <= hi@[j].int_value(),
            decreases data.len() - i,
        {
            let v = data[i].to_wide();
            if v < lo[i].to_wide() || v > hi[i].to_wide() {
                return false;
            }
            i = i + 1;
        }
        true
    }

    fn sample(&mut self) -> (r: NdArray<E>) {
        let n = self.low.len();
        let mut data: Vec<E> = Vec::new();
        let mut i: usize = 0;
        while i < n
            invariant
                self.wf(),
                self.low == old(self).low,
                self.high == old(self).high,
                n == self.spec_low().spec_data().len(),
                0 <= i <= n,
                data@.len() == i,
                forall|j: int|
                    0 <= j < i ==> self.spec_low().spec_data()[j].int_value()
                        <= #[trigger] data@[j].int_value()
                        <= self.spec_high().spec_data()[j].int_value(),
            decreases n - i,
        {
            let l = self.low.as_vec()[i];
            let h = self.high.as_vec()[i];
            proof {
                l.lemma_range();
                h.lemma_range();
                assert(self.spec_low().spec_data()[i as int] == l);
            }
            let w = self.rng.draw_inclusive(l.to_wide(), h.to_wide());
            data.push(E::from_wide(w));
            i = i + 1;
        }
        NdArray::from_parts(copy_dims(self.low.shape()), data)
    }
}

/// In every constructed box with a bound pair per element, each lower bound
/// is at most the upper bound at its index, and both arrays have one shape.
pub proof fn lemma_independent_bounds<E: Element>(space: &BoxSpaceIndependent<E>)
    requires
        space.wf(),
    ensures
        space.spec_low().spec_shape() == space.spec_high().spec_shape(),
        space.spec_low().spec_data().len() == space.spec_high().spec_data().len(),
        forall|i: int|
            0 <= i < space.spec_low().spec_data().len() ==> (#[trigger] space.spec_low().spec_data()[i]).int_value()
                <= space.spec_high().spec_data()[i].int_value(),
{
}

} // verus!
