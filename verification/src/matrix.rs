//! Shape validation for dense matrix multiplication.
//!
//! Multiplying an `m x n` matrix by an `n x p` matrix yields an `m x p`
//! matrix; when either operand has no rows the product is the empty matrix,
//! and when the inner dimensions disagree the multiplication fails. This
//! module decides, from the four dimensions alone, which of the three
//! outcomes applies.

use vstd::prelude::*;

verus! {

/// Error raised by matrix multiplication.
#[derive(Clone, Copy, Debug, PartialEq, Eq, Structural)]
pub enum MatrixError {
    /// The column count of the left operand differs from the row count of
    /// the right operand.
    DimensionMismatch,
}

/// Decide the outcome of multiplying an `rows_a x cols_a` matrix by a
/// `rows_b x cols_b` matrix: `Ok(None)` when either operand is empty (the
/// product is the empty matrix), `Ok(Some((rows_a, cols_b)))` when the inner
/// dimensions agree, and `DimensionMismatch` otherwise. No partial result is
/// ever produced on failure.
pub fn multiply_shape(rows_a: usize, cols_a: usize, rows_b: usize, cols_b: usize) -> (r: Result<
    Option<(usize, usize)>,
    MatrixError,
>)
    ensures
        rows_a == 0 || rows_b == 0 ==> r == Ok::<Option<(usize, usize)>, MatrixError>(None),
        rows_a > 0 && rows_b > 0 && cols_a != rows_b ==> r == Err::<
            Option<(usize, usize)>,
            MatrixError,
        >(MatrixError::DimensionMismatch),
        rows_a > 0 && rows_b > 0 && cols_a == rows_b ==> r == Ok::<
            Option<(usize, usize)>,
            MatrixError,
        >(Some((rows_a, cols_b))),
{
    if rows_a == 0 || rows_b == 0 {
        Ok(None)
    } else if cols_a != rows_b {
        Err(MatrixError::DimensionMismatch)
    } else {
        Ok(Some((rows_a, cols_b)))
    }
}

} // verus!
