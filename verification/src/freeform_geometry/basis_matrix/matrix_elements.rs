//! Flat row-major storage for one axis of a basis matrix, with 1-indexed
//! row and column extraction.
//!
//! Construction accepts any length; only extraction and validation relate
//! the stored length to a degree, requiring `(degree + 1)^2` elements.

use vstd::prelude::*;
use vstd::slice::slice_to_vec;

use crate::decimal::Decimal;

verus! {

/// One axis of a basis matrix: `(degree + 1)^2` coefficients, row-major.
#[derive(Debug, Clone, PartialEq)]
pub struct MatrixElements(Vec<Decimal>);

/// An extracted row, `degree + 1` coefficients.
pub type MatrixRow = Vec<Decimal>;

/// An extracted column, `degree + 1` coefficients.
pub type MatrixColumn = Vec<Decimal>;

/// The stored length matches the square side `degree + 1`.
pub open spec fn len_fits_degree(len: int, degree: int) -> bool {
    len == (degree + 1) * (degree + 1)
}

/// Row `row` (1-indexed) of a row-major square matrix of side `degree + 1`:
/// the contiguous elements starting at `(row - 1) * (degree + 1)`.
pub open spec fn row_of(elems: Seq<Decimal>, row: int, degree: int) -> Seq<Decimal> {
    Seq::new((degree + 1) as nat, |i: int| elems[(row - 1) * (degree + 1) + i])
}

/// Column `column` (1-indexed) of the same layout: every `(degree + 1)`-th
/// element starting at offset `column - 1`.
pub open spec fn col_of(elems: Seq<Decimal>, column: int, degree: int) -> Seq<Decimal> {
    Seq::new((degree + 1) as nat, |i: int| elems[(column - 1) + i * (degree + 1)])
}

impl View for MatrixElements {
    type V = Seq<Decimal>;

    closed spec fn view(&self) -> Seq<Decimal> {
        self.0@
    }
}

/// Decides `len == (degree + 1)^2` without overflowing.
pub(crate) fn len_matches(len: usize, degree: usize) -> (r: bool)
    ensures
        r == len_fits_degree(len as int, degree as int),
{
    let dp1 = match degree.checked_add(1) {
        Some(v) => v,
        None => {
            proof {
                assert((degree as int + 1) * (degree as int + 1) > usize::MAX as int)
                    by (nonlinear_arith)
                    requires degree as int + 1 > usize::MAX as int;
            }
            return false;
        },
    };
    let size = match dp1.checked_mul(dp1) {
        Some(v) => v,
        None => {
            return false;
        },
    };
    len == size
}

impl MatrixElements {
    /// Wraps an arbitrary-length coefficient sequence; no validation.
    pub fn new(elements: &[Decimal]) -> (r: MatrixElements)
        ensures
            r@ == elements@,
    {
        MatrixElements(slice_to_vec(elements))
    }

    /// A zero-filled sequence of `degree^2` coefficients.
    pub fn empty(degree: usize) -> (r: MatrixElements)
        requires
            degree * degree <= usize::MAX,
        ensures
            r@.len() == degree * degree,
            forall|i: int| 0 <= i < r@.len() ==> r@[i] == Decimal::spec_zero(),
    {
        let n = degree * degree;
        let mut elements: Vec<Decimal> = Vec::new();
        let mut i: usize = 0;
        while i < n
            invariant
                i <= n,
                elements@.len() == i,
                forall|j: int| 0 <= j < i ==> elements@[j] == Decimal::spec_zero(),
            decreases n - i,
        {
            elements.push(Decimal::zero());
            i = i + 1;
        }
        MatrixElements(elements)
    }

    /// The stored coefficients, in row-major order.
    pub fn as_slice(&self) -> (r: &[Decimal])
        ensures
            r@ == self@,
    {
        self.0.as_slice()
    }

    /// Extracts column `column` (1-indexed) against the caller-supplied
    /// `degree`; `None` when the column is out of `[1, degree + 1]` or the
    /// stored length does not match the degree.
    pub fn get_column(&self, column: usize, degree: usize) -> (r: Option<MatrixColumn>)
        ensures
            ({
                let ok = 1 <= column <= degree as int + 1 && len_fits_degree(
                    self@.len() as int,
                    degree as int,
                );
                match r {
                    Some(v) => ok && v@ == col_of(self@, column as int, degree as int),
                    None => !ok,
                }
            }),
    {
        if column == 0 || column - 1 > degree {
            return None;
        }
        if !len_matches(self.0.len(), degree) {
            return None;
        }
        proof {
            assert(degree as int + 1 <= (degree as int + 1) * (degree as int + 1))
                by (nonlinear_arith)
                requires degree as int >= 0;
            assert(degree as int * (degree as int + 1) + degree < (degree as int + 1) * (
            degree as int + 1)) by (nonlinear_arith);
        }
        let dp1 = degree + 1;
        let mut ret: Vec<Decimal> = Vec::new();
        let mut i: usize = 0;
        while i < dp1
            invariant
                dp1 == degree + 1,
                1 <= column <= dp1,
                self@.len() == (degree as int + 1) * (degree as int + 1),
                self@.len() <= usize::MAX,
                i <= dp1,
                ret@.len() == i,
                degree as int * (degree as int + 1) + degree < self@.len(),
                forall|j: int|
                    0 <= j < i ==> ret@[j] == self@[(column - 1) + j * (degree as int + 1)],
            decreases dp1 - i,
        {
            proof {
                assert(i as int * (degree as int + 1) <= degree as int * (degree as int + 1))
                    by (nonlinear_arith)
                    requires i as int <= degree as int, degree as int + 1 >= 0;
            }
            let idx = (column - 1) + i * dp1;
            ret.push(self.0[idx]);
            i = i + 1;
        }
        proof {
            assert(ret@ =~= col_of(self@, column as int, degree as int));
        }
        Some(ret)
    }

    /// Extracts row `row` (1-indexed) against the caller-supplied `degree`;
    /// `None` when the row is out of `[1, degree + 1]` or the stored length
    /// does not match the degree.
    pub fn get_row(&self, row: usize, degree: usize) -> (r: Option<MatrixRow>)
        ensures
            ({
                let ok = 1 <= row <= degree as int + 1 && len_fits_degree(
                    self@.len() as int,
                    degree as int,
                );
                match r {
                    Some(v) => ok && v@ == row_of(self@, row as int, degree as int),
                    None => !ok,
                }
            }),
    {
        if row == 0 || row - 1 > degree {
            return None;
        }
        if !len_matches(self.0.len(), degree) {
            return None;
        }
        proof {
            assert(degree as int + 1 <= (degree as int + 1) * (degree as int + 1))
                by (nonlinear_arith)
                requires degree as int >= 0;
            assert((row as int - 1) * (degree as int + 1) + (degree as int + 1) <= (degree as int
                + 1) * (degree as int + 1)) by (nonlinear_arith)
                requires 1 <= row as int <= degree as int + 1;
        }
        let dp1 = degree + 1;
        let starting_index = (row - 1) * dp1;
        let mut ret: Vec<Decimal> = Vec::new();
        let mut i: usize = 0;
        while i < dp1
            invariant
                dp1 == degree + 1,
                self@.len() == (degree as int + 1) * (degree as int + 1),
                self@.len() <= usize::MAX,
                starting_index as int + dp1 as int <= self@.len(),
                starting_index as int == (row as int - 1) * (degree as int + 1),
                i <= dp1,
                ret@.len() == i,
                forall|j: int|
                    0 <= j < i ==> ret@[j] == self@[(row as int - 1) * (degree as int + 1) + j],
            decreases dp1 - i,
        {
            ret.push(self.0[starting_index + i]);
            i = i + 1;
        }
        proof {
            assert(ret@ =~= row_of(self@, row as int, degree as int));
        }
        Some(ret)
    }

    /// Number of stored coefficients.
    pub fn len(&self) -> (r: usize)
        ensures
            r == self@.len(),
    {
        self.0.len()
    }
}

} // verus!
