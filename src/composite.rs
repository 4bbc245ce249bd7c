use crate::space::Space;
use std::collections::HashMap;
use vstd::prelude::*;

verus! {

/// An ordered collection of spaces of one kind.
pub struct VecSpace<S: Space> {
    spaces: Vec<S>,
}

impl<S: Space> VecSpace<S> {
    /// The spaces held, in order.
    pub closed spec fn spec_spaces(&self) -> Seq<S> {
        self.spaces@
    }

    /// The collection holding no space.
    pub fn new() -> (r: Self)
        ensures
            r.spec_spaces().len() == 0,
    {
        VecSpace { spaces: Vec::new() }
    }
}

/// A collection of spaces of one kind, each under a name.
pub struct HashMapSpace<S: Space> {
    spaces: HashMap<String, S>,
}

impl<S: Space> HashMapSpace<S> {
    /// The spaces held, by name.
    pub closed spec fn spec_spaces(&self) -> Map<String, S> {
        self.spaces@
    }

    /// The collection holding no space.
    pub fn new() -> (r: Self)
        ensures
            r.spec_spaces() == Map::<String, S>::empty(),
    {
        HashMapSpace { spaces: HashMap::new() }
    }
}

} // verus!
