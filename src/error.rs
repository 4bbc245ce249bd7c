use vstd::prelude::*;

verus! {

/// The one kind of failure of this library: a space whose declared bounds are
/// inconsistent (inverted bounds, an empty domain, or an upper bound that the
/// element type cannot hold). The text names the offending value or index.
#[derive(Debug, Clone, PartialEq, Eq)]
pub enum GymnasiumError {
    InvalidSpace(String),
}

impl GymnasiumError {
    /// The human-readable description carried by the error.
    pub fn message(&self) -> (r: &String)
        ensures
            r == (match self {
                GymnasiumError::InvalidSpace(m) => m,
            }),
    {
        match self {
            GymnasiumError::InvalidSpace(m) => m,
        }
    }

    /// Whether the error reports an invalid space.
    pub fn is_invalid_space(&self) -> (r: bool)
        ensures
            r == (self is InvalidSpace),
    {
        match self {
            GymnasiumError::InvalidSpace(_) => true,
        }
    }
}

/// The result of a fallible operation of this library.
pub type GymnasiumResult<T> = Result<T, GymnasiumError>;

} // verus!
