//! Basis-matrix attribute data: the step and the matrix that together
//! describe a basis-matrix free-form type, with the mutation entry points
//! used while a definition is being accumulated.

use vstd::prelude::*;

use crate::decimal::Decimal;
use crate::freeform_geometry::uv_pair::UVPair;
use crate::freeform_geometry::Degree;
use super::matrix::{matrix_fits_degree, Matrix, MatrixView};
use super::Step;

verus! {

/// Failure while mutating or validating basis-matrix attributes.
#[derive(Clone, Copy, Debug, PartialEq, Eq, Structural)]
pub enum BasisMatrixAttributesError {
    /// A matrix value of the wrong shape was supplied.
    InvalidMatrixType,
    /// A step buffer held no scalar, or more than two.
    InvalidBufferSize,
    /// Step, matrix and degree do not all have one curve/surface arity.
    FreeFormTypeMismatch,
    /// An axis element count does not match the degree.
    MatrixSizeMismatch,
    /// A failure that the taxonomy does not cover.
    UnknownError,
}

/// A step paired with a basis matrix.  Both must agree on curve/surface
/// arity, but only validation enforces that: invalid combinations are
/// representable while a definition is being accumulated.
#[derive(Debug, Clone, PartialEq)]
pub struct BasisMatrixAttributes {
    pub step: Step,
    pub matrix: Matrix,
}

/// The mathematical content of [`BasisMatrixAttributes`].
pub ghost struct BasisMatrixAttributesView {
    pub step: Step,
    pub matrix: MatrixView,
}

impl View for BasisMatrixAttributes {
    type V = BasisMatrixAttributesView;

    open spec fn view(&self) -> BasisMatrixAttributesView {
        BasisMatrixAttributesView { step: self.step, matrix: self.matrix@ }
    }
}

/// The validation rule: matrix arity must match the degree arity (else a
/// type mismatch), every axis count must match its axis degree (else a size
/// mismatch), and the step arity must match the matrix arity (else a type
/// mismatch again).
pub open spec fn spec_attrs_validate(a: BasisMatrixAttributesView, degree: Degree) -> Result<
    (),
    BasisMatrixAttributesError,
> {
    if (a.matrix is Curve && degree is Surface) || (a.matrix is Surface && degree is Curve) {
        Err(BasisMatrixAttributesError::FreeFormTypeMismatch)
    } else if !matrix_fits_degree(a.matrix, degree) {
        Err(BasisMatrixAttributesError::MatrixSizeMismatch)
    } else if (a.step is Curve && a.matrix is Curve) || (a.step is Surface
        && a.matrix is Surface) {
        Ok(())
    } else {
        Err(BasisMatrixAttributesError::FreeFormTypeMismatch)
    }
}

/// Law: once the arities agree, attributes validate exactly when every
/// matrix axis holds `(axis degree + 1)^2` coefficients, and any other
/// count is reported as a size mismatch.
pub proof fn lemma_matrix_size_law(a: BasisMatrixAttributesView, degree: Degree)
    requires
        (a.matrix is Curve && degree is Curve) || (a.matrix is Surface && degree is Surface),
        (a.step is Curve && a.matrix is Curve) || (a.step is Surface && a.matrix is Surface),
    ensures
        spec_attrs_validate(a, degree) == if matrix_fits_degree(a.matrix, degree) {
            Ok::<(), BasisMatrixAttributesError>(())
        } else {
            Err::<(), BasisMatrixAttributesError>(BasisMatrixAttributesError::MatrixSizeMismatch)
        },
{
}

impl BasisMatrixAttributes {
    /// Couples a step with a matrix; validation is separate.
    pub fn new(step: Step, matrix: Matrix) -> (r: BasisMatrixAttributes)
        ensures
            r@.step == step,
            r@.matrix == matrix@,
    {
        BasisMatrixAttributes { step, matrix }
    }

    /// Replaces the whole matrix.
    pub fn set_matrix(&mut self, new_matrix: Matrix)
        ensures
            final(self)@.step == old(self)@.step,
            final(self)@.matrix == new_matrix@,
    {
        self.matrix = new_matrix;
    }

    /// Replaces the U axis, preserving the V axis of a surface matrix; a
    /// curve matrix stays a curve.  A fresh matrix value is produced, so any
    /// previously extracted row or column is left behind with the old one.
    pub fn set_matrix_u(&mut self, elements: &[Decimal])
        ensures
            final(self)@.step == old(self)@.step,
            final(self)@.matrix == match old(self)@.matrix {
                MatrixView::Curve(_) => MatrixView::Curve(elements@),
                MatrixView::Surface(_, v) => MatrixView::Surface(elements@, v),
            },
    {
        let new_matrix = match &self.matrix {
            Matrix::Curve(_) => Matrix::new_curve(elements),
            Matrix::Surface(_, v) => Matrix::new_surface(elements, v.as_slice()),
        };
        self.matrix = new_matrix;
    }

    /// Replaces the V axis.  On a curve matrix this upgrades it to a surface
    /// that keeps the existing U axis.
    pub fn set_matrix_v(&mut self, elements: &[Decimal])
        ensures
            final(self)@.step == old(self)@.step,
            final(self)@.matrix == match old(self)@.matrix {
                MatrixView::Curve(u) => MatrixView::Surface(u, elements@),
                MatrixView::Surface(u, _) => MatrixView::Surface(u, elements@),
            },
    {
        let new_matrix = match &self.matrix {
            Matrix::Curve(u) => Matrix::new_surface(u.as_slice(), elements),
            Matrix::Surface(u, _) => Matrix::new_surface(u.as_slice(), elements),
        };
        self.matrix = new_matrix;
    }

    /// Replaces the step: one scalar makes a curve step, two make a surface
    /// step, anything else is rejected and leaves the step unchanged.
    pub fn set_step(&mut self, elements: &[usize]) -> (r: Result<
        (),
        BasisMatrixAttributesError,
    >)
        ensures
            final(self)@.matrix == old(self)@.matrix,
            elements@.len() == 1 ==> r is Ok && final(self)@.step == UVPair::Curve(elements@[0]),
            elements@.len() == 2 ==> r is Ok && final(self)@.step == UVPair::Surface(
                elements@[0],
                elements@[1],
            ),
            !(elements@.len() == 1 || elements@.len() == 2) ==> r == Result::<
                (),
                BasisMatrixAttributesError,
            >::Err(BasisMatrixAttributesError::InvalidBufferSize) && final(self)@.step == old(
                self,
            )@.step,
    {
        if elements.len() == 1 {
            match Step::new_curve(elements) {
                Ok(step) => {
                    self.step = step;
                },
                Err(_) => {
                    return Err(BasisMatrixAttributesError::InvalidBufferSize);
                },
            }
        } else if elements.len() == 2 {
            match Step::new_surface(elements) {
                Ok(step) => {
                    self.step = step;
                },
                Err(_) => {
                    return Err(BasisMatrixAttributesError::InvalidBufferSize);
                },
            }
        } else {
            return Err(BasisMatrixAttributesError::InvalidBufferSize);
        }
        Ok(())
    }

    /// Validates the matrix against `degree` and the step arity against the
    /// matrix arity; see [`spec_attrs_validate`] for the exact rule.
    pub fn validate(&self, degree: &Degree) -> (r: Result<(), BasisMatrixAttributesError>)
        ensures
            r == spec_attrs_validate(self@, *degree),
    {
        if (self.matrix.is_curve() && degree.is_surface()) || (self.matrix.is_surface()
            && degree.is_curve()) {
            return Err(BasisMatrixAttributesError::FreeFormTypeMismatch);
        }
        if let Err(_) = self.matrix.validate_matrix(degree) {
            return Err(BasisMatrixAttributesError::MatrixSizeMismatch);
        }
        if (self.step.is_curve() && self.matrix.is_curve()) || (self.step.is_surface()
            && self.matrix.is_surface()) {
            Ok(())
        } else {
            Err(BasisMatrixAttributesError::FreeFormTypeMismatch)
        }
    }
}

impl Default for BasisMatrixAttributes {
    /// A zero curve step with the default curve matrix.
    fn default() -> (r: Self)
        ensures
            r@.step == UVPair::Curve(0usize),
            r@.matrix matches MatrixView::Curve(u) && u.len() == 9 && (forall|i: int|
                0 <= i < u.len() ==> u[i] == Decimal::spec_zero()),
    {
        BasisMatrixAttributes { step: Step::default(), matrix: Matrix::default() }
    }
}

} // verus!
