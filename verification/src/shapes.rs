//! Validation errors for the geometric shapes companion.
//!
//! The shapes themselves measure with floating point, which stays outside
//! the verified library; their validation error taxonomy lives here.

use vstd::prelude::*;

verus! {

/// Why a shape dimension was rejected: each dimension must not be negative.
#[derive(Clone, Copy, Debug, PartialEq, Eq)]
pub enum Error {
    /// A rectangle was given a negative width.
    InvalidWidth,
    /// A rectangle was given a negative height.
    InvalidHeight,
    /// A circle was given a negative radius.
    InvalidRadius,
}

} // verus!
