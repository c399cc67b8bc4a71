//! The basis matrix itself: a U axis for curves, a U/V pair for surfaces,
//! validated against the degree it is paired with.

use vstd::prelude::*;

use crate::decimal::Decimal;
use crate::freeform_geometry::uv_pair::UVPair;
use crate::freeform_geometry::Degree;
use super::matrix_elements::{col_of, len_fits_degree, len_matches, row_of, MatrixColumn,
    MatrixElements, MatrixRow};

verus! {

/// Failure of matrix/degree validation.
#[derive(Clone, Copy, Debug, PartialEq, Eq, Structural)]
pub enum MatrixError {
    /// The matrix arity or an axis element count does not match the degree.
    InvalidDegree,
}

/// A basis matrix: one axis for a curve, U and V axes for a surface.
#[derive(Debug, Clone, PartialEq)]
pub enum Matrix {
    Curve(MatrixElements),
    Surface(MatrixElements, MatrixElements),
}

/// The mathematical content of a [`Matrix`]: its arity and the coefficient
/// sequence of each axis.
pub ghost enum MatrixView {
    Curve(Seq<Decimal>),
    Surface(Seq<Decimal>, Seq<Decimal>),
}

impl View for Matrix {
    type V = MatrixView;

    open spec fn view(&self) -> MatrixView {
        match self {
            Matrix::Curve(u) => MatrixView::Curve(u@),
            Matrix::Surface(u, v) => MatrixView::Surface(u@, v@),
        }
    }
}

/// The matrix and the degree have the same arity and every axis holds
/// exactly `(axis degree + 1)^2` coefficients.
pub open spec fn matrix_fits_degree(m: MatrixView, degree: Degree) -> bool {
    match (m, degree) {
        (MatrixView::Curve(u), UVPair::Curve(du)) => len_fits_degree(u.len() as int, du as int),
        (MatrixView::Surface(u, v), UVPair::Surface(du, dv)) => len_fits_degree(
            u.len() as int,
            du as int,
        ) && len_fits_degree(v.len() as int, dv as int),
        _ => false,
    }
}

/// The rows that `Matrix::get_row` extracts: one per axis, U first, each
/// against its own axis degree; `None` unless the matrix fits the degree and
/// the row index is in range on every axis.
pub open spec fn spec_rows(m: MatrixView, row: int, degree: Degree) -> Option<Seq<Seq<Decimal>>> {
    if !matrix_fits_degree(m, degree) {
        None
    } else {
        match (m, degree) {
            (MatrixView::Curve(u), UVPair::Curve(du)) => if 1 <= row <= du as int + 1 {
                Some(seq![row_of(u, row, du as int)])
            } else {
                None
            },
            (MatrixView::Surface(u, v), UVPair::Surface(du, dv)) => if 1 <= row <= du as int + 1
                && row <= dv as int + 1 {
                Some(seq![row_of(u, row, du as int), row_of(v, row, dv as int)])
            } else {
                None
            },
            _ => None,
        }
    }
}

/// The columns that `Matrix::get_column` extracts, shaped as
/// [`spec_rows`].
pub open spec fn spec_columns(m: MatrixView, column: int, degree: Degree) -> Option<
    Seq<Seq<Decimal>>,
> {
    if !matrix_fits_degree(m, degree) {
        None
    } else {
        match (m, degree) {
            (MatrixView::Curve(u), UVPair::Curve(du)) => if 1 <= column <= du as int + 1 {
                Some(seq![col_of(u, column, du as int)])
            } else {
                None
            },
            (MatrixView::Surface(u, v), UVPair::Surface(du, dv)) => if 1 <= column <= du as int
                + 1 && column <= dv as int + 1 {
                Some(seq![col_of(u, column, du as int), col_of(v, column, dv as int)])
            } else {
                None
            },
            _ => None,
        }
    }
}

/// View of an optional per-axis extraction result.
pub open spec fn spec_axes_view(r: Option<Vec<Vec<Decimal>>>) -> Option<Seq<Seq<Decimal>>> {
    match r {
        Some(v) => Some(v@.map_values(|x: Vec<Decimal>| x@)),
        None => None,
    }
}

impl Matrix {
    /// A curve matrix from its U coefficients.
    pub fn new_curve(u: &[Decimal]) -> (r: Matrix)
        ensures
            r@ == MatrixView::Curve(u@),
    {
        Matrix::Curve(MatrixElements::new(u))
    }

    /// A surface matrix from its U and V coefficients.
    pub fn new_surface(u: &[Decimal], v: &[Decimal]) -> (r: Matrix)
        ensures
            r@ == MatrixView::Surface(u@, v@),
    {
        Matrix::Surface(MatrixElements::new(u), MatrixElements::new(v))
    }

    /// True for the single-axis variant.
    pub fn is_curve(&self) -> (r: bool)
        ensures
            r == (self@ is Curve),
    {
        match self {
            Matrix::Curve(_) => true,
            _ => false,
        }
    }

    /// True for the two-axis variant.
    pub fn is_surface(&self) -> (r: bool)
        ensures
            r == (self@ is Surface),
    {
        match self {
            Matrix::Surface(_, _) => true,
            _ => false,
        }
    }

    /// Extracts row `row` from every axis, U first, after validating the
    /// matrix against `degree`.
    pub fn get_row(&self, row: usize, degree: &Degree) -> (r: Option<Vec<MatrixRow>>)
        ensures
            spec_axes_view(r) == spec_rows(self@, row as int, *degree),
    {
        if let Err(_) = self.validate_matrix(degree) {
            return None;
        }
        match (self, degree) {
            (Matrix::Curve(u), UVPair::Curve(du)) => {
                let row_u = match u.get_row(row, *du) {
                    Some(v) => v,
                    None => {
                        return None;
                    },
                };
                let mut out: Vec<MatrixRow> = Vec::new();
                out.push(row_u);
                proof {
                    assert(out@.map_values(|x: Vec<Decimal>| x@) =~= seq![
                        row_of(u@, row as int, *du as int),
                    ]);
                }
                Some(out)
            },
            (Matrix::Surface(u, v), UVPair::Surface(du, dv)) => {
                let row_u = match u.get_row(row, *du) {
                    Some(value) => value,
                    None => {
                        return None;
                    },
                };
                let row_v = match v.get_row(row, *dv) {
                    Some(value) => value,
                    None => {
                        return None;
                    },
                };
                let mut out: Vec<MatrixRow> = Vec::new();
                out.push(row_u);
                out.push(row_v);
                proof {
                    assert(out@.map_values(|x: Vec<Decimal>| x@) =~= seq![
                        row_of(u@, row as int, *du as int),
                        row_of(v@, row as int, *dv as int),
                    ]);
                }
                Some(out)
            },
            _ => None,
        }
    }

    /// Extracts column `column` from every axis, U first, after validating
    /// the matrix against `degree`.
    pub fn get_column(&self, column: usize, degree: &Degree) -> (r: Option<Vec<MatrixColumn>>)
        ensures
            spec_axes_view(r) == spec_columns(self@, column as int, *degree),
    {
        if let Err(_) = self.validate_matrix(degree) {
            return None;
        }
        match (self, degree) {
            (Matrix::Curve(u), UVPair::Curve(du)) => {
                let col_u = match u.get_column(column, *du) {
                    Some(v) => v,
                    None => {
                        return None;
                    },
                };
                let mut out: Vec<MatrixColumn> = Vec::new();
                out.push(col_u);
                proof {
                    assert(out@.map_values(|x: Vec<Decimal>| x@) =~= seq![
                        col_of(u@, column as int, *du as int),
                    ]);
                }
                Some(out)
            },
            (Matrix::Surface(u, v), UVPair::Surface(du, dv)) => {
                let col_u = match u.get_column(column, *du) {
                    Some(value) => value,
                    None => {
                        return None;
                    },
                };
                let col_v = match v.get_column(column, *dv) {
                    Some(value) => value,
                    None => {
                        return None;
                    },
                };
                let mut out: Vec<MatrixColumn> = Vec::new();
                out.push(col_u);
                out.push(col_v);
                proof {
                    assert(out@.map_values(|x: Vec<Decimal>| x@) =~= seq![
                        col_of(u@, column as int, *du as int),
                        col_of(v@, column as int, *dv as int),
                    ]);
                }
                Some(out)
            },
            _ => None,
        }
    }

    /// Succeeds exactly when the matrix arity matches the degree arity and
    /// every axis holds `(axis degree + 1)^2` coefficients.
    pub fn validate_matrix(&self, degree: &Degree) -> (r: Result<(), MatrixError>)
        ensures
            r is Ok <==> matrix_fits_degree(self@, *degree),
            r is Err ==> r == Result::<(), MatrixError>::Err(MatrixError::InvalidDegree),
    {
        match (self, degree) {
            (Matrix::Curve(u), UVPair::Curve(du)) => {
                if axis_len_matches(u, *du) {
                    Ok(())
                } else {
                    Err(MatrixError::InvalidDegree)
                }
            },
            (Matrix::Surface(u, v), UVPair::Surface(du, dv)) => {
                if !axis_len_matches(u, *du) {
                    return Err(MatrixError::InvalidDegree);
                }
                if axis_len_matches(v, *dv) {
                    Ok(())
                } else {
                    Err(MatrixError::InvalidDegree)
                }
            },
            _ => Err(MatrixError::InvalidDegree),
        }
    }
}

/// Decides whether one axis holds `(degree + 1)^2` coefficients.
fn axis_len_matches(axis: &MatrixElements, degree: usize) -> (r: bool)
    ensures
        r == len_fits_degree(axis@.len() as int, degree as int),
{
    len_matches(axis.len(), degree)
}

impl Default for Matrix {
    /// A curve matrix with the default 3x3 zero fill.
    fn default() -> (r: Self)
        ensures
            r@ matches MatrixView::Curve(u) && u.len() == 9 && (forall|i: int|
                0 <= i < u.len() ==> u[i] == Decimal::spec_zero()),
    {
        Matrix::Curve(MatrixElements::empty(3))
    }
}

} // verus!
