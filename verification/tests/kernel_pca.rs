use kernel_pca::kernel::Kernel;
use kernel_pca::util::sort_indices_descending;
use kernel_pca::{KPcaError, KernelPca};

const TOL: f64 = 1e-9;

fn close(a: f64, b: f64) -> bool {
    (a - b).abs() < TOL
}

/// Column-wise sample covariance entry (j1, j2) of a row-major matrix whose
/// columns already have zero mean.
fn col_cov(m: &Vec<Vec<f64>>, j1: usize, j2: usize) -> f64 {
    let n = m.len();
    let mut s = 0.0f64;
    for i in 0..n {
        s += m[i][j1] * m[i][j2];
    }
    s / ((n - 1) as f64)
}

fn center_columns(data: &Vec<Vec<f64>>) -> Vec<Vec<f64>> {
    let n = data.len();
    let d = data[0].len();
    let mut means = vec![0.0f64; d];
    for row in data {
        for j in 0..d {
            means[j] += row[j];
        }
    }
    for j in 0..d {
        means[j] /= n as f64;
    }
    data.iter().map(|row| (0..d).map(|j| row[j] - means[j]).collect()).collect()
}

fn sample_data() -> Vec<Vec<f64>> {
    vec![
        vec![2.5, 2.4],
        vec![0.5, 0.7],
        vec![2.2, 2.9],
        vec![1.9, 2.2],
        vec![3.1, 3.0],
        vec![2.3, 2.7],
        vec![2.0, 1.6],
        vec![1.0, 1.1],
        vec![1.5, 1.6],
        vec![1.1, 0.9],
    ]
}

#[test]
fn embedding_has_n_rows_and_embed_dim_columns() {
    let data = sample_data();
    for kernel in [
        Kernel::linear(),
        Kernel::rational_quadratic(0.5, 1.0),
        Kernel::squared_exponential(0.5),
    ] {
        let pca = KernelPca::new(kernel, 2);
        let emb = pca.apply(&data).unwrap();
        assert_eq!(emb.len(), data.len());
        for row in &emb {
            assert_eq!(row.len(), 2);
        }
    }
}

#[test]
fn linear_path_reproduces_standard_pca() {
    let data = sample_data();
    let pca = KernelPca::new(Kernel::linear(), 2);
    let emb = pca.apply(&data).unwrap();

    // The embedding's column-wise sample covariance is diagonal ...
    assert!(col_cov(&emb, 0, 1).abs() < TOL);

    // ... with entries equal to the eigenvalues of the data's covariance
    // matrix (singular_value^2 / (n - 1)), in descending order.
    let centered = center_columns(&data);
    let a = col_cov(&centered, 0, 0);
    let b = col_cov(&centered, 0, 1);
    let c = col_cov(&centered, 1, 1);
    let mean = (a + c) / 2.0;
    let delta = (((a - c) / 2.0).powi(2) + b * b).sqrt();
    let (lam1, lam2) = (mean + delta, mean - delta);

    let v0 = col_cov(&emb, 0, 0);
    let v1 = col_cov(&emb, 1, 1);
    assert!(v0 >= v1);
    assert!(close(v0, lam1));
    assert!(close(v1, lam2));
}

#[test]
fn apply_is_idempotent() {
    let data = sample_data();
    for kernel in [
        Kernel::linear(),
        Kernel::rational_quadratic(0.5, 1.0),
        Kernel::squared_exponential(0.5),
    ] {
        let pca = KernelPca::new(kernel, 2);
        let first = pca.apply(&data).unwrap();
        let second = pca.apply(&data).unwrap();
        assert_eq!(first, second);
    }
}

#[test]
fn empty_dataset_is_invalid_data() {
    let pca = KernelPca::new(Kernel::<f64>::linear(), 1);
    let r = pca.apply(&vec![]);
    assert!(matches!(r, Err(KPcaError::InvalidData(_))));
}

#[test]
fn zero_embed_dim_is_invalid_config() {
    let pca = KernelPca::new(Kernel::linear(), 0);
    let r = pca.apply(&vec![vec![1.0]]);
    assert!(matches!(r, Err(KPcaError::InvalidConfig(_))));
}

#[test]
fn ragged_rows_are_invalid_data() {
    let pca = KernelPca::new(Kernel::linear(), 1);
    let r = pca.apply(&vec![vec![1.0, 2.0], vec![3.0]]);
    assert!(matches!(r, Err(KPcaError::InvalidData(_))));
}

#[test]
fn zero_width_rows_are_invalid_data() {
    let pca = KernelPca::new(Kernel::<f64>::linear(), 1);
    let r = pca.apply(&vec![vec![], vec![]]);
    assert!(matches!(r, Err(KPcaError::InvalidData(_))));
}

#[test]
fn embed_dim_above_width_is_invalid_config() {
    let pca = KernelPca::new(Kernel::linear(), 3);
    let r = pca.apply(&vec![vec![1.0, 2.0], vec![3.0, 4.0], vec![5.0, 6.0]]);
    assert!(matches!(r, Err(KPcaError::InvalidConfig(_))));
}

#[test]
fn embed_dim_above_row_count_is_invalid_config() {
    // d = 2 and n = 1: a request for 2 components passes the width bound but
    // only min(n, d) = 1 component is available.
    let pca = KernelPca::new(Kernel::linear(), 2);
    let r = pca.apply(&vec![vec![1.0, 2.0]]);
    assert!(matches!(r, Err(KPcaError::InvalidConfig(_))));
}

#[test]
fn kernel_compute_is_symmetric() {
    let a = vec![1.0, 2.0, 3.0];
    let b = vec![4.0, 5.0, 6.0];
    for kernel in [
        Kernel::linear(),
        Kernel::rational_quadratic(0.5, 1.5),
        Kernel::squared_exponential(0.25),
    ] {
        assert_eq!(kernel.compute(&a, &b), kernel.compute(&b, &a));
    }
}

#[test]
fn gram_matrix_equals_its_transpose() {
    let data = sample_data();
    for kernel in [
        Kernel::linear(),
        Kernel::rational_quadratic(0.5, 1.5),
        Kernel::squared_exponential(0.25),
    ] {
        let pca = KernelPca::new(kernel, 1);
        let k = pca.form_kernel_matrix(&data);
        assert_eq!(k.len(), data.len());
        for i in 0..k.len() {
            for j in 0..k.len() {
                assert_eq!(k[i][j], k[j][i]);
            }
        }
    }
}

#[test]
fn linear_kernel_is_dot_product() {
    let k = Kernel::linear();
    assert_eq!(k.compute(&vec![1.0, 2.0, 3.0], &vec![4.0, 5.0, 6.0]), 32.0);
}

#[test]
fn rational_quadratic_kernel_formula() {
    // ssd = 2, so the result is (1 + 0.5 * 2)^(-2) = 2^(-2).
    let k = Kernel::rational_quadratic(0.5, 2.0);
    let expected = 2.0f64.powf(-2.0);
    assert_eq!(k.compute(&vec![0.0, 0.0], &vec![1.0, 1.0]), expected);
}

#[test]
fn squared_exponential_kernel_formula() {
    // ssd = 2, so the result is exp(-0.5 * 2) = exp(-1).
    let k = Kernel::squared_exponential(0.5);
    let expected = (-1.0f64).exp();
    assert_eq!(k.compute(&vec![0.0, 0.0], &vec![1.0, 1.0]), expected);
}

#[test]
fn sort_indices_descending_ranks_values() {
    let r = sort_indices_descending(&[0.5, 0.3, 0.8, 0.7, 0.4]);
    assert_eq!(r, vec![2, 3, 0, 4, 1]);
}

#[test]
fn sort_indices_descending_empty_and_single() {
    let r = sort_indices_descending::<f64>(&[]);
    assert!(r.is_empty());
    let r = sort_indices_descending(&[42.0]);
    assert_eq!(r, vec![0]);
}

#[test]
fn antipodal_point_cloud_scenario() {
    let data = vec![vec![1.0, 0.0], vec![0.0, 1.0], vec![-1.0, 0.0], vec![0.0, -1.0]];
    let pca = KernelPca::new(Kernel::linear(), 1);
    let emb = pca.apply(&data).unwrap();
    let v: Vec<f64> = emb.iter().map(|row| row[0]).collect();
    // Both singular values of this point cloud are sqrt(2), so the basis of
    // the leading subspace is the decomposition's own tie-break choice; what
    // the antipodal symmetry pins down is that each of the first two rows
    // has the same magnitude as, and the opposite sign from, its antipodal
    // counterpart, and that the component carries the full variance sqrt(2)^2.
    assert!(close(v[0].abs(), v[2].abs()));
    assert!(close(v[1].abs(), v[3].abs()));
    assert!(close(v[0], -v[2]));
    assert!(close(v[1], -v[3]));
    assert!(close(v[0] * v[0] + v[1] * v[1] + v[2] * v[2] + v[3] * v[3], 2.0));
}

#[test]
fn sign_convention_makes_largest_entry_positive() {
    let data = sample_data();
    let pca = KernelPca::new(Kernel::linear(), 2);
    let emb = pca.apply(&data).unwrap();
    for j in 0..2 {
        let mut max_abs = 0.0f64;
        let mut max_val = 0.0f64;
        for i in 0..emb.len() {
            if emb[i][j].abs() > max_abs {
                max_abs = emb[i][j].abs();
                max_val = emb[i][j];
            }
        }
        assert!(max_val >= 0.0);
    }
}

#[test]
fn linear_embedding_exact_values() {
    // Centered data is [[-1, 0], [1, 0], [-1, 0], [1, 0]]: one component of
    // singular value 2, so the embedding is (-1, 1, -1, 1) up to sign, and
    // the sign convention makes the largest-magnitude entry positive.
    let data = vec![vec![0.0, 0.0], vec![2.0, 0.0], vec![0.0, 0.0], vec![2.0, 0.0]];
    let pca = KernelPca::new(Kernel::linear(), 1);
    let emb = pca.apply(&data).unwrap();
    let expected = [1.0, -1.0, 1.0, -1.0];
    for i in 0..4 {
        assert!(close(emb[i][0], expected[i]));
    }
}

#[test]
fn squared_exponential_exact_values() {
    // For two points at squared distance 1 and gamma = ln 2 the kernel
    // matrix is [[1, 1/2], [1/2, 1]]; double centering leaves
    // [[1/4, -1/4], [-1/4, 1/4]], whose nonzero eigenvalue is 1/2, so the
    // embedding is (1/2, -1/2) after sign normalization.
    let data = vec![vec![0.0], vec![1.0]];
    let pca = KernelPca::new(Kernel::squared_exponential(std::f64::consts::LN_2), 1);
    let emb = pca.apply(&data).unwrap();
    assert!(close(emb[0][0], 0.5));
    assert!(close(emb[1][0], -0.5));
}

#[test]
fn rational_quadratic_exact_values() {
    // With gamma = 1 and alpha = 1 the off-diagonal kernel value for two
    // points at squared distance 1 is (1 + 1)^(-1) = 1/2: the same centered
    // matrix as in the squared exponential case, hence the same embedding.
    let data = vec![vec![0.0], vec![1.0]];
    let pca = KernelPca::new(Kernel::rational_quadratic(1.0, 1.0), 1);
    let emb = pca.apply(&data).unwrap();
    assert!(close(emb[0][0], 0.5));
    assert!(close(emb[1][0], -0.5));
}

#[test]
fn negative_eigenvalue_clamped_to_zero() {
    // Two points give a centered kernel matrix of rank one, so the second
    // eigenvalue is zero up to numerical noise and may come out slightly
    // negative; the clamp turns its square root into zero instead of NaN.
    let data: Vec<Vec<f64>> = vec![vec![0.0, 0.0], vec![1.0, 1.0]];
    let pca = KernelPca::new(Kernel::squared_exponential(0.5), 2);
    let emb = pca.apply(&data).unwrap();
    for i in 0..2 {
        assert!(!emb[i][1].is_nan());
        assert!(emb[i][1].abs() < 1e-6);
    }
}

#[test]
fn non_finite_data_is_computation_failure_linear() {
    let pca = KernelPca::new(Kernel::linear(), 1);
    let r = pca.apply(&vec![vec![f64::NAN, 0.0], vec![0.0, 0.0]]);
    assert!(matches!(r, Err(KPcaError::ComputationFailure(_))));
    let r = pca.apply(&vec![vec![f64::INFINITY, 0.0], vec![0.0, 0.0]]);
    assert!(matches!(r, Err(KPcaError::ComputationFailure(_))));
}

#[test]
fn non_finite_data_is_computation_failure_general() {
    let pca = KernelPca::new(Kernel::squared_exponential(0.5), 1);
    let r = pca.apply(&vec![vec![f64::NAN], vec![0.0]]);
    assert!(matches!(r, Err(KPcaError::ComputationFailure(_))));
    // A negative scale parameter makes the kernel value of two distant
    // points overflow to infinity; the screen catches that as well.
    let pca = KernelPca::new(Kernel::squared_exponential(-1.0), 1);
    let r = pca.apply(&vec![vec![0.0], vec![1.0e9]]);
    assert!(matches!(r, Err(KPcaError::ComputationFailure(_))));
}

#[test]
fn general_path_separates_clusters() {
    // Two well-separated clusters: the leading kernel PCA component must
    // tell them apart, so the decomposition cannot be a no-op.
    let data = vec![
        vec![0.0, 0.1],
        vec![0.1, 0.0],
        vec![0.05, 0.05],
        vec![5.0, 5.1],
        vec![5.1, 5.0],
        vec![5.05, 5.05],
    ];
    let pca = KernelPca::new(Kernel::squared_exponential(0.5), 1);
    let emb = pca.apply(&data).unwrap();
    let first: Vec<f64> = emb.iter().map(|r| r[0]).collect();
    for i in 0..3 {
        for j in 3..6 {
            assert!((first[i] - first[j]).abs() > 0.1);
        }
    }
    for i in 0..3 {
        for j in 0..3 {
            assert!((first[i] - first[j]).abs() < 0.1);
        }
    }
}

#[test]
fn error_constructors_carry_messages() {
    let e = KPcaError::computation_failure("numerical step failed");
    assert!(matches!(e, KPcaError::ComputationFailure(_)));
    assert_eq!(e.message().as_str(), "numerical step failed");

    let e = KPcaError::invalid_config("bad configuration");
    assert!(matches!(e, KPcaError::InvalidConfig(_)));
    assert_eq!(e.message().as_str(), "bad configuration");

    let e = KPcaError::invalid_data("bad data");
    assert!(matches!(e, KPcaError::InvalidData(_)));
    assert_eq!(e.message().as_str(), "bad data");
}

#[test]
fn new_stores_kernel_and_embed_dim() {
    let pca = KernelPca::new(Kernel::rational_quadratic(0.5, 1.0), 3);
    assert_eq!(pca.embed_dim, 3);
    assert!(matches!(pca.kernel, Kernel::RationalQuadratic { .. }));
}
