//! Spectral decompositions, supplied by the outside linear-algebra library,
//! and a verified matrix product.

use vstd::prelude::*;
use crate::is_matrix;
use crate::scalar::{add_s, mul_s, zero_s};

verus! {

/// Relies on nalgebra's `Matrix::try_svd_unordered` with left singular
/// vectors requested: on success there are `min(rows, cols)` singular
/// values, in no particular order, each paired by index with a column of
/// `u`, which has `rows` rows and `min(rows, cols)` columns. `None` covers
/// both a decomposition that did not converge and missing left singular
/// vectors. (The sorted entry point is avoided on purpose: its comparator
/// cannot order a non-finite singular value; the caller ranks the values
/// itself.)
#[verifier::external_body]
pub(crate) fn svd_left<T: Copy + num::Float + nalgebra::RealField>(
    x: &Vec<Vec<T>>,
    rows: usize,
    cols: usize,
) -> (r: Option<(Vec<T>, Vec<Vec<T>>)>)
    requires
        is_matrix(x@, rows as int, cols as int),
        rows >= 1,
        cols >= 1,
    ensures
        r is Some ==> ({
            let (s, u) = r->0;
            &&& s@.len() == (if rows <= cols { rows as int } else { cols as int })
            &&& is_matrix(u@, rows as int, (if rows <= cols { rows as int } else { cols as int }))
        }),
{
    let m = nalgebra::DMatrix::from_fn(rows, cols, |i, j| x[i][j]);
    let svd = m.try_svd_unordered(true, false, num::Float::epsilon(), 100000)?;
    let u = svd.u?;
    Some((
        svd.singular_values.iter().copied().collect(),
        u.row_iter().map(|row| row.iter().copied().collect()).collect(),
    ))
}

/// Relies on nalgebra's `SymmetricEigen::try_new`: on success it yields `n`
/// eigenvalues, in no particular order, paired by index with the `n`
/// eigenvector columns, each of `n` components. `None` means the
/// decomposition did not converge. The callers screen out matrices with
/// non-finite entries first: on those this entry point can fail outright
/// instead of returning `None` (its closed-form two-by-two branch cannot
/// report failure).
#[verifier::external_body]
pub(crate) fn symmetric_eigen<T: Copy + num::Float + nalgebra::RealField>(
    k: &Vec<Vec<T>>,
    n: usize,
) -> (r: Option<(Vec<T>, Vec<Vec<T>>)>)
    requires
        is_matrix(k@, n as int, n as int),
        n >= 1,
    ensures
        r is Some ==> ({
            let (vals, vecs) = r->0;
            &&& vals@.len() == n as int
            &&& is_matrix(vecs@, n as int, n as int)
        }),
{
    let m = nalgebra::DMatrix::from_fn(n, n, |i, j| k[i][j]);
    let se = nalgebra::SymmetricEigen::try_new(m, num::Float::epsilon(), 100000)?;
    Some((
        se.eigenvalues.iter().copied().collect(),
        se.eigenvectors.column_iter().map(|col| col.iter().copied().collect()).collect(),
    ))
}

/// The matrix product of `a` (n x m) and `b` (m x p), entry (i, j) being the
/// sum over k of a[i][k] * b[k][j].
#[verifier::loop_isolation(false)]
pub(crate) fn mat_mul<T: Copy + num::Float>(a: &Vec<Vec<T>>, b: &Vec<Vec<T>>) -> (c: Vec<Vec<T>>)
    requires
        b@.len() >= 1,
        is_matrix(a@, a@.len() as int, b@.len() as int),
        is_matrix(b@, b@.len() as int, b@[0]@.len() as int),
    ensures
        is_matrix(c@, a@.len() as int, b@[0]@.len() as int),
{
    let n = a.len();
    let m = b.len();
    let p = b[0].len();
    let mut c: Vec<Vec<T>> = Vec::new();
    for i in 0..n
        invariant
            is_matrix(c@, i as int, p as int),
    {
        let mut row: Vec<T> = Vec::new();
        for j in 0..p
            invariant
                row@.len() == j,
        {
            let mut s: T = zero_s();
            for kk in 0..m {
                s = add_s(s, mul_s(a[i][kk], b[kk][j]));
            }
            row.push(s);
        }
        c.push(row);
    }
    c
}

} // verus!
