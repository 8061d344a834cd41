use lau_kalman_hodge::greens::discrete_hodge_laplacian;
use lau_kalman_hodge::hodge::laplacian_matrix;
use nalgebra::DMatrix;

fn to_dmatrix(rows: &[Vec<i64>]) -> DMatrix<f64> {
    let n = rows.len();
    DMatrix::from_fn(n, n, |i, j| rows[i][j] as f64)
}

fn quadratic_form(l: &[Vec<i64>], x: &[i64]) -> i64 {
    let mut total = 0;
    for i in 0..x.len() {
        for j in 0..x.len() {
            total += x[i] * l[i][j] * x[j];
        }
    }
    total
}

#[test]
fn test_discrete_hodge_laplacian() {
    let l = to_dmatrix(&discrete_hodge_laplacian(4));
    assert_eq!(l.nrows(), 4);
    assert_eq!(l.ncols(), 4);
    assert_eq!(l, l.transpose());
    for i in 0..4 {
        assert!((l[(i, i)] - 2.0).abs() < 1e-10);
    }
}

#[test]
fn discrete_hodge_laplacian_entries_of_three_points() {
    assert_eq!(
        discrete_hodge_laplacian(3),
        vec![vec![2, -1, 0], vec![-1, 2, -1], vec![0, -1, 2]]
    );
}

#[test]
fn discrete_hodge_laplacian_is_negated_second_difference() {
    let h = discrete_hodge_laplacian(6);
    let l = laplacian_matrix(6);
    for i in 0..6 {
        for j in 0..6 {
            assert_eq!(h[i][j], -l[i][j]);
        }
    }
}

#[test]
fn discrete_hodge_laplacian_quadratic_form_is_sum_of_squares() {
    let h = discrete_hodge_laplacian(4);
    let x = [3, -1, 4, 2];
    // x0² + (x0-x1)² + (x1-x2)² + (x2-x3)² + x3² = 9 + 16 + 25 + 4 + 4
    assert_eq!(quadratic_form(&h, &x), 58);
}

#[test]
fn discrete_hodge_laplacian_is_positive_definite_on_examples() {
    let h = discrete_hodge_laplacian(5);
    let samples: [[i64; 5]; 4] = [
        [1, 1, 1, 1, 1],
        [0, 0, 1, 0, 0],
        [1, -1, 1, -1, 1],
        [0, 0, 0, 0, -7],
    ];
    for x in samples.iter() {
        assert!(quadratic_form(&h, x) > 0);
    }
    assert_eq!(quadratic_form(&h, &[0, 0, 0, 0, 0]), 0);
}
