//! Parser and validator for the free-form curve/surface attribute statements
//! of the Wavefront OBJ text format: `cstype`, `deg`, `bmat` and `step` lines
//! are folded into a validated free-form definition, with 1-indexed row and
//! column extraction from basis matrices.
//!
//! Matrix coefficients are carried as exact decimal scalars ([`Decimal`]),
//! since the validation rules only relate element counts to degrees and never
//! compute with the coefficient values themselves.

pub mod decimal;
pub mod parser;
pub mod freeform_geometry;
pub mod index;
pub mod keywords;
pub mod utility;
pub mod vertex_buffer;
pub mod vertex_data;

pub use crate::decimal::Decimal;
pub use crate::index::{Index, IndexError};
pub use crate::utility::UtilityError;
pub use crate::freeform_geometry::uv_pair::{UVPair, UVPairError};
pub use crate::freeform_geometry::Degree;
pub use crate::freeform_geometry::basis_matrix::matrix::{Matrix, MatrixError};
pub use crate::freeform_geometry::basis_matrix::matrix_elements::{MatrixColumn, MatrixElements, MatrixRow};
pub use crate::freeform_geometry::basis_matrix::Step;
pub use crate::freeform_geometry::basis_matrix::basis_matrix_attributes::{BasisMatrixAttributes, BasisMatrixAttributesError};
pub use crate::freeform_geometry::freeform_definition::{FreeFormDefinition, FreeFormDefinitionError, FreeFormValidationExceptions};
pub use crate::freeform_geometry::freeform_types::{FreeFormType, FreeFormTypesErrors};
pub use crate::parser::ObjLine;
pub use crate::freeform_geometry::freeform_obj::{FreeFormObject, FreeFormObjectError};
pub use crate::keywords::{validate_approximation_techniques, validate_basis_axis, validate_curve, validate_display_render_attributes, validate_keyword};
pub use crate::vertex_buffer::{VertexBuffer, VertexBufferError};
pub use crate::vertex_data::{ParameterSpaceVertex, TextureCoordinates, Vertex, VertexNormal};
