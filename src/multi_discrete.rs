use crate::discrete::discrete_bounds_ok;
use crate::element::Element;
use crate::error::GymnasiumError;
use crate::message::{int_text, push_int, push_text};
use crate::ndarray::{copy_dims, NdArray};
use crate::random::Generator;
use crate::space::Space;
use vstd::prelude::*;

verus! {

/// Whether each pair `(n[i], start[i])` is a valid discrete domain.
pub open spec fn multi_discrete_bounds_ok<E: Element>(n: Seq<E>, start: Seq<E>) -> bool {
    forall|i: int|
        0 <= i < n.len() ==> discrete_bounds_ok::<E>(
            (#[trigger] n[i]).int_value(),
            start[i].int_value(),
        )
}

/// Whether `i` is the first index whose pair `(n[i], start[i])` is not a
/// valid discrete domain.
pub open spec fn first_invalid_domain<E: Element>(n: Seq<E>, start: Seq<E>, i: int) -> bool {
    &&& 0 <= i < n.len()
    &&& !discrete_bounds_ok::<E>(n[i].int_value(), start[i].int_value())
    &&& multi_discrete_bounds_ok(n.subrange(0, i), start.subrange(0, i))
}

/// The message of the error for a count `n` below one at `index`.
pub open spec fn empty_at_message(n: int, index: int) -> Seq<char> {
    "The space must have at least one element (n: "@ + int_text(n) + " at index "@ + int_text(index)
        + ")"@
}

/// The message of the error for an end `start + n` above `max` at `index`.
pub open spec fn overflow_at_message(start: int, n: int, max: int, index: int) -> Seq<char> {
    "The space overflows the maximum value of the data type (start: "@ + int_text(start) + " + n: "@
        + int_text(n) + " > MAX: "@ + int_text(max) + " at index "@ + int_text(index) + ")"@
}

/// The message of the error for the invalid domain `(n, start)` at `index`:
/// an empty one is reported as such before any overflow.
pub open spec fn invalid_domain_message<E: Element>(n: int, start: int, index: int) -> Seq<char> {
    if n < 1 {
        empty_at_message(n, index)
    } else {
        overflow_at_message(start, n, E::max_int(), index)
    }
}

/// The arrays of one shape whose element at each index `i` is one of the
/// `n[i]` integers from `start[i]` on: `start[i] <= v[i] < start[i] + n[i]`.
#[derive(Clone, Debug)]
pub struct MultiDiscreteSpace<E: Element> {
    rng: Generator,
    n: NdArray<E>,
    start: NdArray<E>,
    end: NdArray<E>,
}

impl<E: Element> MultiDiscreteSpace<E> {
    /// The seed the space's generator was last seeded with, if any.
    pub closed spec fn spec_seed(&self) -> Option<u64> {
        self.rng.spec_seeded_with()
    }

    /// The number of values at each index.
    pub closed spec fn spec_n(&self) -> NdArray<E> {
        self.n
    }

    /// The least value at each index.
    pub closed spec fn spec_start(&self) -> NdArray<E> {
        self.start
    }

    /// One past the greatest value at each index.
    pub closed spec fn spec_end(&self) -> NdArray<E> {
        self.end
    }

    /// Builds the space with `n[i]` values from `start[i]` on at each index,
    /// drawing samples from a generator seeded with `seed` (or from entropy
    /// when `None`). Fails with `InvalidSpace` where some `n[i]` is below one
    /// or `start[i] + n[i]` exceeds the greatest value of `E`, naming the
    /// first such index and the values there.
    pub fn new(n: NdArray<E>, start: NdArray<E>, seed: Option<u64>) -> (r: Result<
        Self,
        GymnasiumError,
    >)
        requires
            n.wf(),
            start.wf(),
            n.spec_shape() == start.spec_shape(),
        ensures
            r is Ok <==> multi_discrete_bounds_ok(n.spec_data(), start.spec_data()),
            r matches Ok(s) ==> s.wf() && s.spec_n() == n && s.spec_start() == start
                && s.spec_seed() == seed,
            r matches Ok(s) ==> forall|i: int|
                0 <= i < n.spec_data().len() ==> {
                    &&& (#[trigger] s.spec_end().spec_data()[i]).int_value() == start.spec_data()[i].int_value()
                        + n.spec_data()[i].int_value()
                    &&& start.spec_data()[i].int_value() < s.spec_end().spec_data()[i].int_value() <= E::max_int()
                },
            r matches Err(e) ==> e is InvalidSpace,
            r matches Err(GymnasiumError::InvalidSpace(m)) ==> exists|i: int|
                #[trigger] first_invalid_domain(n.spec_data(), start.spec_data(), i) && m@
                    == invalid_domain_message::<E>(
                    n.spec_data()[i].int_value(),
                    start.spec_data()[i].int_value(),
                    i,
                ),
    {
        let nv = n.as_vec();
        let sv = start.as_vec();
        let mut ends: Vec<E> = Vec::new();
        let mut i: usize = 0;
        while i < nv.len()
            invariant
                nv@ == n.spec_data(),
                sv@ == start.spec_data(),
                nv@.len() == sv@.len(),
                0 <= i <= nv.len(),
                ends@.len() == i,
                forall|j: int|
                    0 <= j < i ==> discrete_bounds_ok::<E>(
                        (#[trigger] nv@[j]).int_value(),
                        sv@[j].int_value(),
                    ) && ends@[j].int_value() == sv@[j].int_value() + nv@[j].int_value(),
            decreases nv.len() - i,
        {
            let k = nv[i].to_wide();
            let s = sv[i].to_wide();
            proof {
                nv@[i as int].lemma_range();
                sv@[i as int].lemma_range();
            }
            if k < 1 || k > E::max_wide() - s {
                proof {
                    assert forall|j: int| 0 <= j < i implies discrete_bounds_ok::<E>(
                        (#[trigger] nv@.subrange(0, i as int)[j]).int_value(),
                        sv@.subrange(0, i as int)[j].int_value(),
                    ) by {
                        assert(nv@.subrange(0, i as int)[j] == nv@[j]);
                        assert(sv@.subrange(0, i as int)[j] == sv@[j]);
                    }
                    assert(first_invalid_domain(n.spec_data(), start.spec_data(), i as int));
                }
                let mut m: String;
                if k < 1 {
                    m = "The space must have at least one element (n: ".to_owned();
                    push_int(&mut m, k);
                } else {
                    m = "The space overflows the maximum value of the data type (start: ".to_owned();
                    push_int(&mut m, s);
                    push_text(&mut m, " + n: ");
                    push_int(&mut m, k);
                    push_text(&mut m, " > MAX: ");
                    push_int(&mut m, E::max_wide());
                }
                push_text(&mut m, " at index ");
                push_int(&mut m, i as i128);
                push_text(&mut m, ")");
                return Err(GymnasiumError::InvalidSpace(m));
            }
            ends.push(E::from_wide(s + k));
            i = i + 1;
        }
        let end = NdArray::from_parts(copy_dims(n.shape()), ends);
        Ok(MultiDiscreteSpace { rng: Generator::new(seed), n, start, end })
    }

    /// The number of values at each index.
    pub fn n(&self) -> (r: &NdArray<E>)
        ensures
            *r == self.spec_n(),
    {
        &self.n
    }

    /// The least value at each index.
    pub fn start(&self) -> (r: &NdArray<E>)
        ensures
            *r == self.spec_start(),
    {
        &self.start
    }

    /// One past the greatest value at each index.
    pub fn end(&self) -> (r: &NdArray<E>)
        ensures
            *r == self.spec_end(),
    {
        &self.end
    }

    /// The extents of the axes of the space's values.
    pub fn shape(&self) -> (r: &Vec<usize>)
        ensures
            r@ == self.spec_n().spec_shape(),
    {
        self.n.shape()
    }

    /// Replaces the random generator by one seeded with `seed`; the bounds
    /// stay as they were.
    pub fn seed(&mut self, seed: u64)
        requires
            old(self).wf(),
        ensures
            final(self).wf(),
            final(self).spec_n() == old(self).spec_n(),
            final(self).spec_start() == old(self).spec_start(),
            final(self).spec_end() == old(self).spec_end(),
            final(self).spec_seed() == Some(seed),
    {
        self.rng = Generator::new(Some(seed));
    }
}

impl<E: Element> Space for MultiDiscreteSpace<E> {
    type Value = NdArray<E>;

    open spec fn wf(&self) -> bool {
        &&& self.spec_n().wf()
        &&& self.spec_start().spec_shape() == self.spec_n().spec_shape()
        &&& self.spec_end().spec_shape() == self.spec_n().spec_shape()
        &&& self.spec_start().spec_data().len() == self.spec_n().spec_data().len()
        &&& self.spec_end().spec_data().len() == self.spec_n().spec_data().len()
        &&& multi_discrete_bounds_ok(self.spec_n().spec_data(), self.spec_start().spec_data())
        &&& forall|i: int|
            0 <= i < self.spec_n().spec_data().len() ==> (#[trigger] self.spec_end().spec_data()[i]).int_value()
                == self.spec_start().spec_data()[i].int_value()
                + self.spec_n().spec_data()[i].int_value()
    }

    open spec fn spec_contains(&self, value: NdArray<E>) -> bool {
        &&& value.spec_shape() == self.spec_n().spec_shape()
        &&& value.spec_data().len() == self.spec_n().spec_data().len()
        &&& forall|i: int|
            0 <= i < value.spec_data().len() ==> self.spec_start().spec_data()[i].int_value()
                <= #[trigger] value.spec_data()[i].int_value()
                < self.spec_end().spec_data()[i].int_value()
    }

    open spec fn spec_sampled(&self, value: NdArray<E>) -> bool {
        self.spec_contains(value)
    }

    fn contains(&self, value: &NdArray<E>) -> (r: bool) {
        if !value.has_shape(self.n.shape()) || value.len() != self.n.len() {
            return false;
        }
        let data = value.as_vec();
        let lo = self.start.as_vec();
        let hi = self.end.as_vec();
        let mut i: usize = 0;
        while i < data.len()
            invariant
                data@ == value.spec_data(),
                lo@ == self.spec_start().spec_data(),
                hi@ == self.spec_end().spec_data(),
                data@.len() == lo@.len(),
                lo@.len() == hi@.len(),
                0 <= i <= data.len(),
                forall|j: int|
                    0 <= j < i ==> lo@[j].int_value() <= #[trigger] data@[j].int_value()
                        < hi@[j].int_value(),
            decreases data.len() - i,
        {
            let v = data[i].to_wide();
            if v < lo[i].to_wide() || v >= hi[i].to_wide() {
                return false;
            }
            i = i + 1;
        }
        true
    }

    fn sample(&mut self) -> (r: NdArray<E>) {
        let count = self.n.len();
        let mut data: Vec<E> = Vec::new();
        let mut i: usize = 0;
        while i < count
            invariant
                self.wf(),
                self.n == old(self).n,
                self.start == old(self).start,
                self.end == old(self).end,
                count == self.spec_n().spec_data().len(),
                0 <= i <= count,
                data@.len() == i,
                forall|j: int|
                    0 <= j < i ==> self.spec_start().spec_data()[j].int_value()
                        <= #[trigger] data@[j].int_value()
                        < self.spec_end().spec_data()[j].int_value(),
            decreases count - i,
        {
            let l = self.start.as_vec()[i];
            let h = self.end.as_vec()[i];
            proof {
                l.lemma_range();
                h.lemma_range();
                assert(self.spec_end().spec_data()[i as int] == h);
                assert(discrete_bounds_ok::<E>(
                    self.spec_n().spec_data()[i as int].int_value(),
                    self.spec_start().spec_data()[i as int].int_value(),
                ));
            }
            let w = self.rng.draw_inclusive(l.to_wide(), h.to_wide() - 1);
            data.push(E::from_wide(w));
            i = i + 1;
        }
        NdArray::from_parts(copy_dims(self.n.shape()), data)
    }
}

/// In every constructed multi-discrete space, each index holds at least one
/// value, and `start[i] + n[i]`, its end, does not exceed the greatest value
/// of the element type.
pub proof fn lemma_multi_discrete_bounds<E: Element>(space: &MultiDiscreteSpace<E>)
    requires
        space.wf(),
    ensures
        forall|i: int|
            0 <= i < space.spec_n().spec_data().len() ==> {
                &&& (#[trigger] space.spec_n().spec_data()[i]).int_value() >= 1
                &&& space.spec_start().spec_data()[i].int_value() + space.spec_n().spec_data()[i].int_value()
                    <= E::max_int()
                &&& space.spec_end().spec_data()[i].int_value() == space.spec_start().spec_data()[i].int_value()
                    + space.spec_n().spec_data()[i].int_value()
            },
{
    assert forall|i: int| 0 <= i < space.spec_n().spec_data().len() implies {
        &&& (#[trigger] space.spec_n().spec_data()[i]).int_value() >= 1
        &&& space.spec_start().spec_data()[i].int_value() + space.spec_n().spec_data()[i].int_value()
            <= E::max_int()
        &&& space.spec_end().spec_data()[i].int_value() == space.spec_start().spec_data()[i].int_value()
            + space.spec_n().spec_data()[i].int_value()
    } by {
        assert(discrete_bounds_ok::<E>(
            space.spec_n().spec_data()[i].int_value(),
            space.spec_start().spec_data()[i].int_value(),
        ));
    }
}

} // verus!
