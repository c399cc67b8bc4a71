//! The closed set of free-form basis kinds, selected by a `cstype` keyword
//! token.  Only the basis-matrix kind carries data.

use vstd::prelude::*;

use crate::decimal::Decimal;
use crate::freeform_geometry::basis_matrix::basis_matrix_attributes::{BasisMatrixAttributes,
    BasisMatrixAttributesView};
use crate::freeform_geometry::basis_matrix::matrix::MatrixView;
use crate::freeform_geometry::uv_pair::UVPair;
use crate::utility::str_eq;

verus! {

/// Rejection of an unrecognised basis-kind token.
#[derive(Clone, Copy, Debug, PartialEq, Eq, Structural)]
pub enum FreeFormTypesErrors {
    InvalidFreeFormType,
}

/// The basis kind of a free-form curve or surface.
#[derive(Debug, Clone, PartialEq)]
pub enum FreeFormType {
    /// An explicit basis matrix, with its step and coefficients.
    BasisMatrix(BasisMatrixAttributes),
    Bezier,
    BSpline,
    Cardinal,
    Taylor,
}

/// The mathematical content of a [`FreeFormType`].
pub ghost enum FreeFormTypeView {
    BasisMatrix(BasisMatrixAttributesView),
    Bezier,
    BSpline,
    Cardinal,
    Taylor,
}

impl View for FreeFormType {
    type V = FreeFormTypeView;

    open spec fn view(&self) -> FreeFormTypeView {
        match self {
            FreeFormType::BasisMatrix(a) => FreeFormTypeView::BasisMatrix(a@),
            FreeFormType::Bezier => FreeFormTypeView::Bezier,
            FreeFormType::BSpline => FreeFormTypeView::BSpline,
            FreeFormType::Cardinal => FreeFormTypeView::Cardinal,
            FreeFormType::Taylor => FreeFormTypeView::Taylor,
        }
    }
}

impl DeepView for FreeFormType {
    type V = FreeFormTypeView;

    open spec fn deep_view(&self) -> FreeFormTypeView {
        self.view()
    }
}

/// The attributes a fresh basis-matrix type starts from: a zero curve step
/// and the default curve matrix.
pub open spec fn spec_default_attrs() -> BasisMatrixAttributesView {
    BasisMatrixAttributesView {
        step: UVPair::Curve(0usize),
        matrix: MatrixView::Curve(Seq::new(9, |i: int| Decimal::spec_zero())),
    }
}

/// The basis kind selected by token `s`, or an error for any other token.
pub open spec fn spec_from_keyword(s: Seq<char>) -> Result<FreeFormTypeView,
    FreeFormTypesErrors,
> {
    if s == "bmatrix"@ {
        Ok(FreeFormTypeView::BasisMatrix(spec_default_attrs()))
    } else if s == "bezier"@ {
        Ok(FreeFormTypeView::Bezier)
    } else if s == "bspline"@ {
        Ok(FreeFormTypeView::BSpline)
    } else if s == "cardinal"@ {
        Ok(FreeFormTypeView::Cardinal)
    } else if s == "taylor"@ {
        Ok(FreeFormTypeView::Taylor)
    } else {
        Err(FreeFormTypesErrors::InvalidFreeFormType)
    }
}

impl FreeFormType {
    /// Selects the basis kind named by `s`; `bmatrix` starts with default
    /// (empty curve matrix, zero step) attributes ready for later mutation.
    pub fn from_str(s: &str) -> (r: Result<FreeFormType, FreeFormTypesErrors>)
        ensures
            match r {
                Ok(t) => spec_from_keyword(s@) == Ok::<FreeFormTypeView, FreeFormTypesErrors>(t@),
                Err(e) => spec_from_keyword(s@) == Err::<FreeFormTypeView, FreeFormTypesErrors>(
                    e,
                ),
            },
    {
        if str_eq(s, "bmatrix") {
            let attrs = BasisMatrixAttributes::default();
            proof {
                assert(attrs@.matrix->Curve_0 =~= Seq::new(9, |i: int| Decimal::spec_zero()));
            }
            Ok(FreeFormType::BasisMatrix(attrs))
        } else if str_eq(s, "bezier") {
            Ok(FreeFormType::Bezier)
        } else if str_eq(s, "bspline") {
            Ok(FreeFormType::BSpline)
        } else if str_eq(s, "cardinal") {
            Ok(FreeFormType::Cardinal)
        } else if str_eq(s, "taylor") {
            Ok(FreeFormType::Taylor)
        } else {
            Err(FreeFormTypesErrors::InvalidFreeFormType)
        }
    }
}

impl Default for FreeFormType {
    /// The Bezier basis kind.
    fn default() -> (r: Self)
        ensures
            r@ == FreeFormTypeView::Bezier,
    {
        FreeFormType::Bezier
    }
}

} // verus!
