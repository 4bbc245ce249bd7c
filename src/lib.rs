//! Bounded, typed spaces of values: membership tests and reproducible
//! uniform sampling for the action and observation domains of an
//! environment.

pub mod box_identical;
pub mod box_independent;
pub mod box_space;
pub mod composite;
pub mod discrete;
pub mod env;
pub mod element;
pub mod error;
pub mod message;
pub mod multi_binary;
pub mod multi_discrete;
pub mod ndarray;
pub mod random;
pub mod space;
pub mod text;

pub use box_identical::BoxSpaceIdentical;
pub use box_independent::BoxSpaceIndependent;
pub use box_space::{BoxBound, BoxSpace};
pub use composite::{HashMapSpace, VecSpace};
pub use discrete::DiscreteSpace;
pub use env::RenderMode;
pub use element::Element;
pub use error::{GymnasiumError, GymnasiumResult};
pub use multi_binary::MultiBinarySpace;
pub use multi_discrete::MultiDiscreteSpace;
pub use ndarray::NdArray;
pub use space::Space;
pub use text::TextSpace;
