//! The free-form object: the same line fold as
//! [`FreeFormDefinition`](crate::freeform_geometry::freeform_definition::FreeFormDefinition),
//! exposed under the object-level error taxonomy.

use vstd::prelude::*;

use crate::freeform_geometry::freeform_definition::{spec_parse, FreeFormDefinition,
    FreeFormDefinitionError};
use crate::freeform_geometry::freeform_types::{FreeFormType, FreeFormTypeView};
use crate::freeform_geometry::Degree;
use crate::parser::ObjLine;

verus! {

/// Structural failures while accumulating a free-form object.
#[derive(Clone, Copy, Debug, PartialEq, Eq, Structural)]
pub enum FreeFormObjectError {
    MissingKeyword,
    CurveSurfaceMismatch,
    InvalidKeyword,
    InvalidFormType,
    InvalidParameters,
    InvalidFreeFormType,
    InvalidBufferSize,
    /// The line sequence ended without both a type and a degree.
    MalformedCurveDefinition,
    UnknownError,
}

/// A fully accumulated free-form object.
#[derive(Debug, Clone, PartialEq)]
pub struct FreeFormObject {
    pub form_type: FreeFormType,
    pub rational: bool,
    pub degree: Degree,
}

/// The mathematical content of a [`FreeFormObject`].
pub ghost struct FreeFormObjectView {
    pub form_type: FreeFormTypeView,
    pub rational: bool,
    pub degree: Degree,
}

impl View for FreeFormObject {
    type V = FreeFormObjectView;

    open spec fn view(&self) -> FreeFormObjectView {
        FreeFormObjectView {
            form_type: self.form_type@,
            rational: self.rational,
            degree: self.degree,
        }
    }
}

/// The definition-level error, renamed into the object taxonomy.
pub open spec fn spec_object_error(e: FreeFormDefinitionError) -> FreeFormObjectError {
    match e {
        FreeFormDefinitionError::MissingKeyword => FreeFormObjectError::MissingKeyword,
        FreeFormDefinitionError::CurveSurfaceMismatch => FreeFormObjectError::CurveSurfaceMismatch,
        FreeFormDefinitionError::InvalidKeyword => FreeFormObjectError::InvalidKeyword,
        FreeFormDefinitionError::InvalidFormType => FreeFormObjectError::InvalidFormType,
        FreeFormDefinitionError::InvalidParameters => FreeFormObjectError::InvalidParameters,
        FreeFormDefinitionError::InvalidFreeFormType => FreeFormObjectError::InvalidFreeFormType,
        FreeFormDefinitionError::InvalidBufferSize => FreeFormObjectError::InvalidBufferSize,
        FreeFormDefinitionError::MalformedDefinition
            => FreeFormObjectError::MalformedCurveDefinition,
        FreeFormDefinitionError::UnknownError => FreeFormObjectError::UnknownError,
    }
}

/// The record the object fold emits for a line sequence.
pub open spec fn spec_object_parse(lines: Seq<crate::parser::ObjLineView>) -> Result<
    FreeFormObjectView,
    FreeFormObjectError,
> {
    match spec_parse(lines) {
        Ok(d) => Ok(
            FreeFormObjectView { form_type: d.form_type, rational: d.rational, degree: d.degree },
        ),
        Err(e) => Err(spec_object_error(e)),
    }
}

impl FreeFormObject {
    /// Assembles an object record directly.
    pub fn new(form_type: FreeFormType, rational: bool, degree: Degree) -> (r: FreeFormObject)
        ensures
            r@.form_type == form_type@,
            r@.rational == rational,
            r@.degree == degree,
    {
        FreeFormObject { form_type, rational, degree }
    }

    /// Folds tagged lines into an object, stopping before the first line
    /// with a foreign keyword.
    pub fn parse(lines: &Vec<ObjLine>) -> (r: Result<FreeFormObject, FreeFormObjectError>)
        ensures
            match r {
                Ok(o) => spec_object_parse(lines.deep_view()) == Ok::<
                    FreeFormObjectView,
                    FreeFormObjectError,
                >(o@),
                Err(e) => spec_object_parse(lines.deep_view()) == Err::<
                    FreeFormObjectView,
                    FreeFormObjectError,
                >(e),
            },
    {
        match FreeFormDefinition::parse(lines) {
            Ok(d) => {
                let FreeFormDefinition { form_type, rational, degree } = d;
                Ok(FreeFormObject { form_type, rational, degree })
            },
            Err(e) => Err(
                match e {
                    FreeFormDefinitionError::MissingKeyword => FreeFormObjectError::MissingKeyword,
                    FreeFormDefinitionError::CurveSurfaceMismatch
                        => FreeFormObjectError::CurveSurfaceMismatch,
                    FreeFormDefinitionError::InvalidKeyword => FreeFormObjectError::InvalidKeyword,
                    FreeFormDefinitionError::InvalidFormType
                        => FreeFormObjectError::InvalidFormType,
                    FreeFormDefinitionError::InvalidParameters
                        => FreeFormObjectError::InvalidParameters,
                    FreeFormDefinitionError::InvalidFreeFormType
                        => FreeFormObjectError::InvalidFreeFormType,
                    FreeFormDefinitionError::InvalidBufferSize
                        => FreeFormObjectError::InvalidBufferSize,
                    FreeFormDefinitionError::MalformedDefinition
                        => FreeFormObjectError::MalformedCurveDefinition,
                    FreeFormDefinitionError::UnknownError => FreeFormObjectError::UnknownError,
                },
            ),
        }
    }
}

impl Default for FreeFormObject {
    /// A non-rational Bezier curve of degree zero.
    fn default() -> (r: Self)
        ensures
            r@.form_type == FreeFormTypeView::Bezier,
            r@.rational == false,
            r@.degree == crate::freeform_geometry::uv_pair::UVPair::Curve(0usize),
    {
        FreeFormObject {
            form_type: FreeFormType::default(),
            rational: false,
            degree: Degree::default(),
        }
    }
}

} // verus!
