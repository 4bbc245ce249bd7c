use vstd::prelude::*;

verus! {

/// How an environment presents its state to a viewer.
#[derive(Debug, Clone, Copy, PartialEq, Eq)]
pub enum RenderMode {
    /// Nothing is rendered.
    Disabled,
    Human,
    Image,
    Text,
}

} // verus!
