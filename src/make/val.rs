use vstd::prelude::*;
use crate::ad::{constant_model, Ad};
use crate::matrix::mat_model;
use crate::scalar::Real;

verus! {

/// The constant `value` with respect to `N` variables.
pub fn scalar<T: Real, const N: usize>(value: T) -> (r: Ad<T, N>)
    ensures
        r@ == constant_model(value, N as nat),
{
    Ad::inactive_scalar(value)
}

/// Constants for each of `values`, with respect to `N` variables.
pub fn vector_from_slice<T: Real, const N: usize>(values: &[T]) -> (r: Vec<Ad<T, N>>)
    requires
        values@.len() == N,
    ensures
        r@.len() == N,
        forall|k: int| 0 <= k < N ==> #[trigger] r@[k]@ == constant_model(values@[k], N as nat),
{
    Ad::inactive_from_slice(values)
}

/// Constants for each of `values`, with respect to `N` variables.
pub fn vectpr<T: Real, const N: usize>(values: &[T]) -> (r: Vec<Ad<T, N>>)
    requires
        values@.len() == N,
    ensures
        r@.len() == N,
        forall|k: int| 0 <= k < N ==> #[trigger] r@[k]@ == constant_model(values@[k], N as nat),
{
    Ad::inactive_from_slice(values)
}

/// The `R` by `C` matrix of constants whose entry `(i, j)` is `values[at(i, j)]`.
fn matrix_from<T: Real, const N: usize, const R: usize, const C: usize>(
    values: &[T],
    by_rows: bool,
) -> (r: Vec<Vec<Ad<T, N>>>)
    requires
        values@.len() == R * C,
    ensures
        r@.len() == R,
        forall|i: int| 0 <= i < R ==> #[trigger] r@[i]@.len() == C,
        forall|i: int, j: int|
            0 <= i < R && 0 <= j < C ==> #[trigger] mat_model(r@)[i][j] == constant_model(
                values@[if by_rows { i * C + j } else { j * R + i }],
                N as nat,
            ),
{
    let len = values.len();
    let mut rows: Vec<Vec<Ad<T, N>>> = Vec::new();
    let mut i: usize = 0;
    while i < R
        invariant
            i <= R,
            len == values@.len(),
            values@.len() == R * C,
            rows@.len() == i,
            forall|p: int| 0 <= p < i ==> #[trigger] rows@[p]@.len() == C,
            forall|p: int, q: int|
                0 <= p < i && 0 <= q < C ==> #[trigger] rows@[p]@[q]@ == constant_model(
                    values@[if by_rows { p * C + q } else { q * R + p }],
                    N as nat,
                ),
        decreases R - i,
    {
        let mut row: Vec<Ad<T, N>> = Vec::new();
        let mut j: usize = 0;
        while j < C
            invariant
                i < R,
                j <= C,
                len == values@.len(),
                values@.len() == R * C,
                row@.len() == j,
                forall|q: int|
                    0 <= q < j ==> #[trigger] row@[q]@ == constant_model(
                        values@[if by_rows { i * C + q } else { q * R + i }],
                        N as nat,
                    ),
            decreases C - j,
        {
            let at = if by_rows {
                proof {
                    assert(i * C + j < R * C) by (nonlinear_arith)
                        requires
                            i < R,
                            j < C,
                    ;
                    assert(i * C + j <= usize::MAX);
                }
                i * C + j
            } else {
                proof {
                    assert(j * R + i < R * C) by (nonlinear_arith)
                        requires
                            i < R,
                            j < C,
                    ;
                    assert(j * R + i <= usize::MAX);
                }
                j * R + i
            };
            row.push(Ad::inactive_scalar(values[at]));
            j += 1;
        }
        rows.push(row);
        i += 1;
    }
    rows
}

/// The `R` by `C` matrix of constants read from `values` row after row.
pub fn matrix_from_row_slice<T: Real, const N: usize, const R: usize, const C: usize>(
    values: &[T],
) -> (r: Vec<Vec<Ad<T, N>>>)
    requires
        values@.len() == R * C,
    ensures
        r@.len() == R,
        forall|i: int| 0 <= i < R ==> #[trigger] r@[i]@.len() == C,
        forall|i: int, j: int|
            0 <= i < R && 0 <= j < C ==> #[trigger] mat_model(r@)[i][j] == constant_model(
                values@[i * C + j],
                N as nat,
            ),
{
    matrix_from::<T, N, R, C>(values, true)
}

/// The `R` by `C` matrix of constants read from `values` column after column.
pub fn matrix_from_column_slice<T: Real, const N: usize, const R: usize, const C: usize>(
    values: &[T],
) -> (r: Vec<Vec<Ad<T, N>>>)
    requires
        values@.len() == R * C,
    ensures
        r@.len() == R,
        forall|i: int| 0 <= i < R ==> #[trigger] r@[i]@.len() == C,
        forall|i: int, j: int|
            0 <= i < R && 0 <= j < C ==> #[trigger] mat_model(r@)[i][j] == constant_model(
                values@[j * R + i],
                N as nat,
            ),
{
    matrix_from::<T, N, R, C>(values, false)
}

/// The matrix of constants with the entries of `matrix`.
pub fn valmat<T: Real, const N: usize>(matrix: &Vec<Vec<T>>) -> (r: Vec<Vec<Ad<T, N>>>)
    ensures
        r@.len() == matrix@.len(),
        forall|i: int| 0 <= i < matrix@.len() ==> #[trigger] r@[i]@.len() == matrix@[i]@.len(),
        forall|i: int, j: int|
            0 <= i < matrix@.len() && 0 <= j < matrix@[i]@.len() ==> #[trigger] mat_model(
                r@,
            )[i][j] == constant_model(matrix@[i]@[j], N as nat),
{
    let mut rows: Vec<Vec<Ad<T, N>>> = Vec::new();
    let mut i: usize = 0;
    while i < matrix.len()
        invariant
            i <= matrix@.len(),
            rows@.len() == i,
            forall|p: int| 0 <= p < i ==> #[trigger] rows@[p]@.len() == matrix@[p]@.len(),
            forall|p: int, q: int|
                0 <= p < i && 0 <= q < matrix@[p]@.len() ==> #[trigger] rows@[p]@[q]@
                    == constant_model(matrix@[p]@[q], N as nat),
        decreases matrix@.len() - i,
    {
        let src = &matrix[i];
        let mut row: Vec<Ad<T, N>> = Vec::new();
        let mut j: usize = 0;
        while j < src.len()
            invariant
                j <= src@.len(),
                row@.len() == j,
                forall|q: int|
                    0 <= q < j ==> #[trigger] row@[q]@ == constant_model(src@[q], N as nat),
            decreases src@.len() - j,
        {
            row.push(Ad::inactive_scalar(src[j]));
            j += 1;
        }
        rows.push(row);
        i += 1;
    }
    rows
}

} // verus!
