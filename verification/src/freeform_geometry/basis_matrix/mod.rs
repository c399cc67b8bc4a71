//! The basis ("characteristic") matrix of the basis-matrix free-form type,
//! with its extra attribute data.
//!
//! A matrix must have a U axis at all times and a V axis when it defines a
//! surface; each axis holds `(degree + 1)^2` coefficients for its axis
//! degree.  A step, of the same curve/surface arity, accompanies it.

use vstd::prelude::*;

use crate::freeform_geometry::uv_pair::UVPair;

pub mod basis_matrix_attributes;
pub mod matrix;
pub mod matrix_elements;

verus! {

/// Step size per axis, the same shape as a degree.
pub type Step = UVPair;

} // verus!
