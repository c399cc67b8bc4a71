//! Free-form curve and surface geometry: the typed value model for
//! degree/step pairs and basis matrices, and the accumulation of a free-form
//! definition from tagged attribute lines.

use vstd::prelude::*;

pub mod basis_matrix;
pub mod freeform_definition;
pub mod freeform_obj;
pub mod freeform_types;
pub mod uv_pair;

verus! {

/// Polynomial degree per axis: one value for curves, two for surfaces.
pub type Degree = uv_pair::UVPair;

} // verus!
