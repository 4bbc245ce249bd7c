use crate::ndarray::{checked_size, copy_dims, shape_size, NdArray};
use crate::random::Generator;
use crate::space::Space;
use vstd::prelude::*;

verus! {

/// The boolean arrays of one shape: every pattern of flags is legal.
#[derive(Clone, Debug)]
pub struct MultiBinarySpace {
    rng: Generator,
    shape: Vec<usize>,
    size: usize,
}

impl MultiBinarySpace {
    /// The seed the space's generator was last seeded with, if any.
    pub closed spec fn spec_seed(&self) -> Option<u64> {
        self.rng.spec_seeded_with()
    }

    /// The extents of the axes of the space's values.
    pub closed spec fn spec_shape(&self) -> Seq<usize> {
        self.shape@
    }

    /// The number of elements of each value.
    pub closed spec fn spec_size(&self) -> nat {
        self.size as nat
    }

    /// Builds the space of boolean arrays of shape `shape`, drawing samples
    /// from a generator seeded with `seed` (or from entropy when `None`).
    pub fn new(shape: Vec<usize>, seed: Option<u64>) -> (r: Self)
        requires
            shape_size(shape@) <= usize::MAX,
        ensures
            r.wf(),
            r.spec_shape() == shape@,
            r.spec_seed() == seed,
    {
        let size = match checked_size(&shape) {
            Some(k) => k,
            None => 0,
        };
        MultiBinarySpace { rng: Generator::new(seed), shape, size }
    }

    /// The extents of the axes of the space's values.
    pub fn shape(&self) -> (r: &Vec<usize>)
        ensures
            r@ == self.spec_shape(),
    {
        &self.shape
    }

    /// Replaces the random generator by one seeded with `seed`; the shape
    /// stays as it was.
    pub fn seed(&mut self, seed: u64)
        requires
            old(self).wf(),
        ensures
            final(self).wf(),
            final(self).spec_shape() == old(self).spec_shape(),
            final(self).spec_seed() == Some(seed),
    {
        self.rng = Generator::new(Some(seed));
    }
}

impl Space for MultiBinarySpace {
    type Value = NdArray<bool>;

    open spec fn wf(&self) -> bool {
        self.spec_size() == shape_size(self.spec_shape())
    }

    open spec fn spec_contains(&self, value: NdArray<bool>) -> bool {
        value.spec_shape() == self.spec_shape() && value.wf()
    }

    open spec fn spec_sampled(&self, value: NdArray<bool>) -> bool {
        self.spec_contains(value)
    }

    fn contains(&self, value: &NdArray<bool>) -> (r: bool) {
        value.has_shape(&self.shape) && value.len() == self.size
    }

    fn sample(&mut self) -> (r: NdArray<bool>) {
        let mut data: Vec<bool> = Vec::new();
        let mut i: usize = 0;
        while i < self.size
            invariant
                self.shape == old(self).shape,
                self.size == old(self).size,
                self.size == shape_size(self.spec_shape()),
                0 <= i <= self.size,
                data@.len() == i,
            decreases self.size - i,
        {
            data.push(self.rng.draw_bool());
            i = i + 1;
        }
        NdArray::from_parts(copy_dims(&self.shape), data)
    }
}

/// Every boolean array of a multi-binary space's shape is one of its values.
pub proof fn lemma_multi_binary_total(space: &MultiBinarySpace, value: NdArray<bool>)
    requires
        space.wf(),
        value.wf(),
        value.spec_shape() == space.spec_shape(),
    ensures
        space.spec_contains(value),
{
}

} // verus!
