//! Numeric capabilities the value types are generic over. The renderer
//! consumes these value types; the scalar instances live with the platform
//! layer, which picks the scalar representation.

use vstd::prelude::*;

verus! {

/// Approximate equality up to a type-specific tolerance.
pub trait ApproxEq: Sized {
    /// The tolerance under which two values count as equal.
    fn epsilon() -> Self;

    /// Whether `self` and `rhs` differ by less than the tolerance.
    fn approx_eq(&self, rhs: &Self) -> bool;
}

/// Lossy conversion to a companion scalar type.
pub trait Cast {
    type Target;

    fn cast(&self) -> Self::Target;
}

} // verus!
