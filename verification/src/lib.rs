//! Kernel principal component analysis.
//!
//! The embedding engine validates a dataset, dispatches either to a standard
//! PCA fast path (for the linear kernel) or to the general kernel path
//! (kernel matrix, double centering, symmetric eigendecomposition), and
//! assembles the final low-dimensional embedding.

mod error;
pub mod kernel;
mod linalg;
mod scalar;
pub mod util;

use vstd::prelude::*;

pub use error::KPcaError;
pub use kernel::Kernel;

verus! {

/// `m` is a matrix of `rows` rows, each of exactly `cols` elements.
pub open spec fn is_matrix<T>(m: Seq<Vec<T>>, rows: int, cols: int) -> bool {
    m.len() == rows && forall|i: int| 0 <= i < rows ==> (#[trigger] m[i])@.len() == cols
}

/// The feature width of a dataset: the length of its first row.
pub open spec fn data_width<T>(data: Seq<Vec<T>>) -> int {
    data[0]@.len() as int
}

/// The dataset is structurally usable: at least one row, a positive feature
/// width, and every row of exactly that width.
pub open spec fn data_valid<T>(data: Seq<Vec<T>>) -> bool {
    &&& data.len() >= 1
    &&& data_width(data) >= 1
    &&& forall|i: int| 0 <= i < data.len() ==> (#[trigger] data[i])@.len() == data_width(data)
}

/// The configuration is compatible with the dataset: a positive embedding
/// dimension that exceeds neither the feature width nor the number of rows.
/// (Either decomposition yields at most `min(n, d)` usable components, so
/// both bounds are enforced during validation.)
pub open spec fn config_valid<T>(embed_dim: usize, data: Seq<Vec<T>>) -> bool {
    &&& embed_dim >= 1
    &&& embed_dim <= data_width(data)
    &&& embed_dim <= data.len()
}

/// A Kernel PCA configuration: the kernel function together with the
/// requested embedding dimension.
#[derive(Clone, Debug)]
pub struct KernelPca<T> {
    /// The kernel function
    pub kernel: Kernel<T>,
    /// The embedding dimension
    pub embed_dim: usize,
}

impl<T: Copy + num::Float + nalgebra::RealField> KernelPca<T> {
    /// Constructs a new `KernelPca` instance from a kernel function and the
    /// desired embedding dimension.
    pub fn new(kernel: Kernel<T>, embed_dim: usize) -> (r: KernelPca<T>)
        ensures
            r.kernel == kernel,
            r.embed_dim == embed_dim,
    {
        KernelPca { kernel, embed_dim }
    }

    /// Applies Kernel PCA to the provided input data, outputting the
    /// projected embeddings: one output row per input row (in input order),
    /// each of `embed_dim` columns (in descending order of singular value or
    /// eigenvalue rank).
    ///
    /// A structurally unusable dataset is rejected with `InvalidData`; a
    /// configuration incompatible with the data with `InvalidConfig`; and a
    /// numerical step that cannot produce a usable result reports
    /// `ComputationFailure`. A matrix holding a non-finite value (a NaN or
    /// infinity in the data, or one produced by centering or by the kernel)
    /// is rejected with `ComputationFailure` rather than handed to a
    /// decomposition. On the general kernel path an eigenvalue that
    /// is negative (numerical noise on a matrix that is only approximately
    /// positive semi-definite) is clamped to zero before its square root.
    /// Each output column's sign is normalized so that the basis column's
    /// largest-magnitude entry is non-negative.
    #[verifier::loop_isolation(false)]
    pub fn apply(&self, data: &Vec<Vec<T>>) -> (r: Result<Vec<Vec<T>>, KPcaError>)
        ensures
            r is Ok ==> data_valid(data@) && config_valid(self.embed_dim, data@) && is_matrix(
                r->Ok_0@,
                data@.len() as int,
                self.embed_dim as int,
            ),
            !data_valid(data@) ==> r is Err && r->Err_0 is InvalidData,
            data_valid(data@) && !config_valid(self.embed_dim, data@) ==> r is Err
                && r->Err_0 is InvalidConfig,
            r is Err && data_valid(data@) && config_valid(self.embed_dim, data@)
                ==> r->Err_0 is ComputationFailure,
    {
        match self.validate(data) {
            Ok(()) => {},
            Err(e) => {
                return Err(e);
            },
        }
        let n = data.len();
        let ed = self.embed_dim;
        // The basis columns (n rows, at least ed columns) and the ed scale
        // factors that the embedding is assembled from.
        let (u_sel, sigma): (Vec<Vec<T>>, Vec<T>) = match &self.kernel {
            Kernel::Linear => {
                // For the linear kernel, vanilla PCA: no kernel matrix, and
                // the singular values are used without a square root.
                let x = match center_data(data) {
                    Ok(m) => m,
                    Err(e) => {
                        return Err(e);
                    },
                };
                if !all_entries_finite(&x) {
                    return Err(
                        KPcaError::computation_failure("Centered data has non-finite entries"),
                    );
                }
                let d = data[0].len();
                let (s, u) = match linalg::svd_left(&x, n, d) {
                    Some(p) => p,
                    None => {
                        return Err(KPcaError::computation_failure("SVD Failure"));
                    },
                };
                // The decomposition hands its factors back unordered; rank
                // the singular values here, as the eigen path does.
                let order = util::sort_indices_descending(s.as_slice());
                let mut sigma: Vec<T> = Vec::new();
                for j in 0..ed
                    invariant
                        sigma@.len() == j,
                {
                    sigma.push(s[order[j]]);
                }
                let mut usel: Vec<Vec<T>> = Vec::new();
                for i in 0..n
                    invariant
                        is_matrix(usel@, i as int, ed as int),
                {
                    let mut row: Vec<T> = Vec::new();
                    for j in 0..ed
                        invariant
                            row@.len() == j,
                    {
                        row.push(u[i][order[j]]);
                    }
                    usel.push(row);
                }
                (usel, sigma)
            },
            _ => {
                let km = self.form_kernel_matrix(data);
                let kc = match center_kernel_matrix(&km) {
                    Ok(m) => m,
                    Err(e) => {
                        return Err(e);
                    },
                };
                if !all_entries_finite(&kc) {
                    return Err(
                        KPcaError::computation_failure(
                            "Centered kernel matrix has non-finite entries",
                        ),
                    );
                }
                let (vals, vecs) = match linalg::symmetric_eigen(&kc, n) {
                    Some(p) => p,
                    None => {
                        return Err(
                            KPcaError::computation_failure("Eigendecomposition did not converge"),
                        );
                    },
                };
                let order = util::sort_indices_descending(vals.as_slice());
                let zero: T = scalar::zero_s();
                let mut sigma: Vec<T> = Vec::new();
                for j in 0..ed
                    invariant
                        sigma@.len() == j,
                {
                    let lam = vals[order[j]];
                    let lam = if scalar::lt_s(lam, zero) {
                        zero
                    } else {
                        lam
                    };
                    sigma.push(scalar::sqrt_s(lam));
                }
                let mut usel: Vec<Vec<T>> = Vec::new();
                for i in 0..n
                    invariant
                        is_matrix(usel@, i as int, ed as int),
                {
                    let mut row: Vec<T> = Vec::new();
                    for j in 0..ed
                        invariant
                            row@.len() == j,
                    {
                        row.push(vecs[order[j]][i]);
                    }
                    usel.push(row);
                }
                (usel, sigma)
            },
        };
        let flips = determine_signs(&u_sel, ed);
        let one: T = scalar::one_s();
        let neg_one: T = scalar::neg_s(one);
        let mut emb: Vec<Vec<T>> = Vec::new();
        for i in 0..n
            invariant
                is_matrix(emb@, i as int, ed as int),
        {
            let mut row: Vec<T> = Vec::new();
            for j in 0..ed
                invariant
                    row@.len() == j,
            {
                let sgn = if flips[j] {
                    neg_one
                } else {
                    one
                };
                row.push(scalar::mul_s(scalar::mul_s(u_sel[i][j], sigma[j]), sgn));
            }
            emb.push(row);
        }
        Ok(emb)
    }

    /// Assembles the symmetric kernel (Gram) matrix: entry (i, j) holds the
    /// kernel evaluated on rows i and j. Only the lower triangle (diagonal
    /// included) is evaluated; each off-diagonal value is mirrored into the
    /// opposite entry, so the result equals its own transpose.
    #[verifier::loop_isolation(false)]
    pub fn form_kernel_matrix(&self, x: &Vec<Vec<T>>) -> (k: Vec<Vec<T>>)
        requires
            data_valid(x@),
        ensures
            is_matrix(k@, x@.len() as int, x@.len() as int),
            forall|i: int, j: int|
                0 <= i < x@.len() && 0 <= j < x@.len() ==> k@[i]@[j] == k@[j]@[i],
    {
        let n = x.len();
        let mut tri: Vec<Vec<T>> = Vec::new();
        for i in 0..n
            invariant
                tri@.len() == i,
                forall|a: int| 0 <= a < i ==> (#[trigger] tri@[a])@.len() == a + 1,
        {
            let mut row: Vec<T> = Vec::new();
            for j in 0..(i + 1)
                invariant
                    row@.len() == j,
            {
                row.push(self.kernel.compute(x[i].as_slice(), x[j].as_slice()));
            }
            tri.push(row);
        }
        let mut k: Vec<Vec<T>> = Vec::new();
        for i in 0..n
            invariant
                k@.len() == i,
                forall|a: int| 0 <= a < i ==> (#[trigger] k@[a])@.len() == n,
                forall|a: int, b: int|
                    0 <= a < i && 0 <= b < n ==> k@[a]@[b] == mirrored_entry(tri@, a, b),
        {
            let mut row: Vec<T> = Vec::new();
            for j in 0..n
                invariant
                    row@.len() == j,
                    forall|b: int| 0 <= b < j ==> row@[b] == mirrored_entry(tri@, i as int, b),
            {
                if j <= i {
                    row.push(tri[i][j]);
                } else {
                    row.push(tri[j][i]);
                }
            }
            k.push(row);
        }
        proof {
            assert forall|i: int, j: int|
                0 <= i < x@.len() && 0 <= j < x@.len() implies k@[i]@[j] == k@[j]@[i] by {
                assert(k@[i]@[j] == mirrored_entry(tri@, i, j));
                assert(k@[j]@[i] == mirrored_entry(tri@, j, i));
            }
        }
        k
    }

    /// Validates the dataset and the configuration, in implementation
    /// order: non-empty data, positive feature width, rectangular rows,
    /// positive embedding dimension, and an embedding dimension bounded by
    /// the feature width and by the number of rows.
    fn validate(&self, data: &Vec<Vec<T>>) -> (r: Result<(), KPcaError>)
        ensures
            r is Ok <==> data_valid(data@) && config_valid(self.embed_dim, data@),
            !data_valid(data@) ==> r is Err && r->Err_0 is InvalidData,
            data_valid(data@) && !config_valid(self.embed_dim, data@) ==> r is Err
                && r->Err_0 is InvalidConfig,
    {
        if data.len() == 0 {
            return Err(KPcaError::invalid_data("Input data has no records"));
        }
        let dim = data[0].len();
        if dim == 0 {
            return Err(KPcaError::invalid_data("Input data has a dimensionality of zero"));
        }
        for i in 0..data.len()
            invariant
                data@.len() >= 1,
                dim == data_width(data@),
                forall|a: int| 0 <= a < i ==> (#[trigger] data@[a])@.len() == dim,
        {
            if data[i].len() != dim {
                return Err(
                    KPcaError::invalid_data(
                        "Input data has inconsistent dimensionality across records",
                    ),
                );
            }
        }
        if self.embed_dim == 0 {
            return Err(KPcaError::invalid_config("Embedding dimension must be positive"));
        }
        if self.embed_dim > dim {
            return Err(
                KPcaError::invalid_config("Embedding dimension must be <= data dimension"),
            );
        }
        if self.embed_dim > data.len() {
            return Err(
                KPcaError::invalid_config("Embedding dimension must be <= the number of records"),
            );
        }
        Ok(())
    }
}

/// The lower-triangle entry that position (i, j) of the full symmetric
/// matrix mirrors: (i, j) itself when j <= i, and (j, i) otherwise.
spec fn mirrored_entry<T>(tri: Seq<Vec<T>>, i: int, j: int) -> T {
    if j <= i {
        tri[i]@[j]
    } else {
        tri[j]@[i]
    }
}

/// Feature-mean centering for the standard PCA path: subtracts the
/// per-column mean from every row. Fails only where the number of rows
/// cannot be represented in the scalar field.
#[verifier::loop_isolation(false)]
fn center_data<T: Copy + num::Float>(x: &Vec<Vec<T>>) -> (r: Result<Vec<Vec<T>>, KPcaError>)
    requires
        data_valid(x@),
    ensures
        r is Ok ==> is_matrix(r->Ok_0@, x@.len() as int, data_width(x@)),
        r is Err ==> r->Err_0 is ComputationFailure,
{
    let dim = x[0].len();
    let nf: T = match scalar::from_usize_s(x.len()) {
        Some(v) => v,
        None => {
            return Err(KPcaError::computation_failure("Unable to convert data length to float"));
        },
    };
    let zero: T = scalar::zero_s();
    let mut means: Vec<T> = Vec::new();
    for j in 0..dim
        invariant
            means@.len() == j,
    {
        means.push(zero);
    }
    for i in 0..x.len()
        invariant
            means@.len() == dim,
    {
        for j in 0..dim
            invariant
                means@.len() == dim,
        {
            let v = scalar::add_s(means[j], x[i][j]);
            means.set(j, v);
        }
    }
    for j in 0..dim
        invariant
            means@.len() == dim,
    {
        let v = scalar::div_s(means[j], nf);
        means.set(j, v);
    }
    let mut out: Vec<Vec<T>> = Vec::new();
    for i in 0..x.len()
        invariant
            is_matrix(out@, i as int, dim as int),
            means@.len() == dim,
    {
        let mut row: Vec<T> = Vec::new();
        for j in 0..dim
            invariant
                row@.len() == j,
        {
            row.push(scalar::sub_s(x[i][j], means[j]));
        }
        out.push(row);
    }
    Ok(out)
}

/// Double centering for the kernel path: forms R = I - (1/n) J (J being the
/// all-ones matrix) and returns R * K * R, removing the implicit mean in
/// kernel feature space. Fails only where the matrix dimension cannot be
/// represented in the scalar field.
#[verifier::loop_isolation(false)]
fn center_kernel_matrix<T: Copy + num::Float>(k: &Vec<Vec<T>>) -> (r: Result<
    Vec<Vec<T>>,
    KPcaError,
>)
    requires
        k@.len() >= 1,
        is_matrix(k@, k@.len() as int, k@.len() as int),
    ensures
        r is Ok ==> is_matrix(r->Ok_0@, k@.len() as int, k@.len() as int),
        r is Err ==> r->Err_0 is ComputationFailure,
{
    let dim = k.len();
    let tdim: T = match scalar::from_usize_s(dim) {
        Some(v) => v,
        None => {
            return Err(KPcaError::computation_failure("Unable to convert dimension to float"));
        },
    };
    let one: T = scalar::one_s();
    let zero: T = scalar::zero_s();
    let q = scalar::div_s(one, tdim);
    let mut rmat: Vec<Vec<T>> = Vec::new();
    for i in 0..dim
        invariant
            is_matrix(rmat@, i as int, dim as int),
    {
        let mut row: Vec<T> = Vec::new();
        for j in 0..dim
            invariant
                row@.len() == j,
        {
            if i == j {
                row.push(scalar::sub_s(one, q));
            } else {
                row.push(scalar::sub_s(zero, q));
            }
        }
        rmat.push(row);
    }
    let rk = linalg::mat_mul(&rmat, k);
    Ok(linalg::mat_mul(&rk, &rmat))
}

/// Whether every entry of `m` passes the finiteness self-test
/// `(v - v) == 0`: for a floating-point scalar, `v - v` is zero exactly
/// when `v` is finite (it is NaN both for NaN and for the infinities). The
/// engine screens each matrix with this before handing it to a
/// decomposition, so a non-finite value becomes a typed error instead of
/// reaching a numerical routine that cannot handle it.
#[verifier::loop_isolation(false)]
fn all_entries_finite<T: Copy + num::Float>(m: &Vec<Vec<T>>) -> bool {
    let zero: T = scalar::zero_s();
    for i in 0..m.len() {
        for j in 0..m[i].len() {
            let v = m[i][j];
            if !scalar::eq_s(scalar::sub_s(v, v), zero) {
                return false;
            }
        }
    }
    true
}

/// For each of the first `dim` columns of `u`, whether the column's entry
/// of largest magnitude is negative, in which case the whole column's sign
/// is flipped: a convention that makes the embedding deterministic across
/// decompositions that agree up to the sign of a basis column.
#[verifier::loop_isolation(false)]
fn determine_signs<T: Copy + num::Float>(u: &Vec<Vec<T>>, dim: usize) -> (flips: Vec<bool>)
    requires
        forall|i: int| 0 <= i < u@.len() ==> (#[trigger] u@[i])@.len() >= dim,
    ensures
        flips@.len() == dim,
{
    let zero: T = scalar::zero_s();
    let mut flips: Vec<bool> = Vec::new();
    for j in 0..dim
        invariant
            flips@.len() == j,
    {
        let mut max_abs: T = zero;
        let mut flip = false;
        for i in 0..u.len() {
            let val = u[i][j];
            let a = scalar::abs_s(val);
            if scalar::lt_s(max_abs, a) {
                max_abs = a;
                flip = scalar::lt_s(val, zero);
            }
        }
        flips.push(flip);
    }
    flips
}

} // verus!
