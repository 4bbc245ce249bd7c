use crate::box_identical::BoxSpaceIdentical;
use crate::box_independent::BoxSpaceIndependent;
use crate::element::Element;
use crate::ndarray::NdArray;
use crate::space::Space;
use vstd::prelude::*;

verus! {

/// A box space of either kind, presenting one contract.
#[derive(Clone, Debug)]
pub enum BoxSpace<E: Element> {
    Identical(BoxSpaceIdentical<E>),
    Independent(BoxSpaceIndependent<E>),
}

/// A bound of a box space: one scalar for every element, or one array with a
/// bound per element.
#[derive(Debug, Clone)]
pub enum BoxBound<E> {
    Identical(E),
    Independent(NdArray<E>),
}

impl<E: Element> BoxSpace<E> {
    /// The seed the active variant's generator was last seeded with, if any.
    pub open spec fn spec_seed(&self) -> Option<u64> {
        match self {
            BoxSpace::Identical(s) => s.spec_seed(),
            BoxSpace::Independent(s) => s.spec_seed(),
        }
    }

    /// The lower bound of the active variant.
    pub fn low(&self) -> (r: BoxBound<E>)
        ensures
            match self {
                BoxSpace::Identical(s) => r matches BoxBound::Identical(b) && b.int_value() == s.spec_low(),
                BoxSpace::Independent(s) => r matches BoxBound::Independent(a) && a.spec_shape()
                    == s.spec_low().spec_shape() && a.spec_data() == s.spec_low().spec_data(),
            },
    {
        match self {
            BoxSpace::Identical(s) => BoxBound::Identical(s.low()),
            BoxSpace::Independent(s) => BoxBound::Independent(s.low().copy()),
        }
    }

    /// The upper bound of the active variant.
    pub fn high(&self) -> (r: BoxBound<E>)
        ensures
            match self {
                BoxSpace::Identical(s) => r matches BoxBound::Identical(b) && b.int_value() == s.spec_high(),
                BoxSpace::Independent(s) => r matches BoxBound::Independent(a) && a.spec_shape()
                    == s.spec_high().spec_shape() && a.spec_data() == s.spec_high().spec_data(),
            },
    {
        match self {
            BoxSpace::Identical(s) => BoxBound::Identical(s.high()),
            BoxSpace::Independent(s) => BoxBound::Independent(s.high().copy()),
        }
    }

    /// The extents of the axes of the space's values.
    pub fn shape(&self) -> (r: &Vec<usize>)
        ensures
            match self {
                BoxSpace::Identical(s) => r@ == s.spec_shape(),
                BoxSpace::Independent(s) => r@ == s.spec_low().spec_shape(),
            },
    {
        match self {
            BoxSpace::Identical(s) => s.shape(),
            BoxSpace::Independent(s) => s.shape(),
        }
    }

    /// Replaces the random generator of the active variant by one seeded with
    /// `seed`; the variant and its bounds stay as they were.
    pub fn seed(&mut self, seed: u64)
        requires
            old(self).wf(),
        ensures
            final(self).wf(),
            match (*old(self), *final(self)) {
                (BoxSpace::Identical(a), BoxSpace::Identical(b)) => a.spec_low() == b.spec_low()
                    && a.spec_high() == b.spec_high() && a.spec_shape() == b.spec_shape(),
                (BoxSpace::Independent(a), BoxSpace::Independent(b)) => a.spec_low() == b.spec_low()
                    && a.spec_high() == b.spec_high(),
                _ => false,
            },
            final(self).spec_seed() == Some(seed),
    {
        match self {
            BoxSpace::Identical(s) => s.seed(seed),
            BoxSpace::Independent(s) => s.seed(seed),
        }
    }
}

impl<E: Element> Space for BoxSpace<E> {
    type Value = NdArray<E>;

    open spec fn wf(&self) -> bool {
        match self {
            BoxSpace::Identical(s) => s.wf(),
            BoxSpace::Independent(s) => s.wf(),
        }
    }

    open spec fn spec_contains(&self, value: NdArray<E>) -> bool {
        match self {
            BoxSpace::Identical(s) => s.spec_contains(value),
            BoxSpace::Independent(s) => s.spec_contains(value),
        }
    }

    open spec fn spec_sampled(&self, value: NdArray<E>) -> bool {
        self.spec_contains(value)
    }

    fn contains(&self, value: &NdArray<E>) -> (r: bool) {
        match self {
            BoxSpace::Identical(s) => s.contains(value),
            BoxSpace::Independent(s) => s.contains(value),
        }
    }

    fn sample(&mut self) -> (r: NdArray<E>) {
        match self {
            BoxSpace::Identical(s) => s.sample(),
            BoxSpace::Independent(s) => s.sample(),
        }
    }
}

impl<E: Element> From<BoxSpaceIdentical<E>> for BoxSpace<E> {
    fn from(space: BoxSpaceIdentical<E>) -> Self {
        BoxSpace::Identical(space)
    }
}

impl<E: Element> vstd::std_specs::convert::FromSpecImpl<BoxSpaceIdentical<E>> for BoxSpace<E> {
    open spec fn obeys_from_spec() -> bool {
        true
    }

    open spec fn from_spec(space: BoxSpaceIdentical<E>) -> Self {
        BoxSpace::Identical(space)
    }
}

impl<E: Element> From<BoxSpaceIndependent<E>> for BoxSpace<E> {
    fn from(space: BoxSpaceIndependent<E>) -> Self {
        BoxSpace::Independent(space)
    }
}

impl<E: Element> vstd::std_specs::convert::FromSpecImpl<BoxSpaceIndependent<E>> for BoxSpace<E> {
    open spec fn obeys_from_spec() -> bool {
        true
    }

    open spec fn from_spec(space: BoxSpaceIndependent<E>) -> Self {
        BoxSpace::Independent(space)
    }
}

} // verus!
