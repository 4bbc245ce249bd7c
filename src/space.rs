use vstd::prelude::*;

verus! {

/// What every space offers: a membership test on its values, and uniform
/// sampling from its own random generator.
///
/// Each space owns its generator. A clone carries a copy of the generator's
/// state, so a space and its clone go on to draw the same stream, each
/// on its own; reseed the clone where an independent stream is wanted.
pub trait Space: Sized {
    /// The values that the space describes.
    type Value;

    /// The space's bounds are consistent.
    spec fn wf(&self) -> bool;

    /// Whether `value` is a legal value of the space.
    spec fn spec_contains(&self, value: Self::Value) -> bool;

    /// Whether `value` is one that `sample` may draw: a legal value, with
    /// whatever more the space's distribution guarantees.
    spec fn spec_sampled(&self, value: Self::Value) -> bool;

    /// Tests whether `value` is a legal value of the space.
    fn contains(&self, value: &Self::Value) -> (r: bool)
        requires
            self.wf(),
        ensures
            r == self.spec_contains(*value),
    ;

    /// Draws one value of the space. Only the random generator advances: the
    /// set of legal values stays as it was.
    fn sample(&mut self) -> (r: Self::Value)
        requires
            old(self).wf(),
        ensures
            final(self).wf(),
            old(self).spec_contains(r),
            old(self).spec_sampled(r),
            forall|v: Self::Value| #[trigger] final(self).spec_contains(v) == old(self).spec_contains(v),
    ;
}

} // verus!
