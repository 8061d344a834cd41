//! The discrete Hodge Laplacian `Δ = dd* + d*d` of a 1D chain complex, the
//! operator whose inverse is the Green's operator.
use vstd::prelude::*;
use crate::hodge::{is_square, laplacian_entry};

verus! {

/// Entry `(i, j)` of the discrete Hodge Laplacian of a chain.
pub open spec fn hodge_entry(i: int, j: int) -> int {
    if i == j {
        2
    } else if j == i - 1 || j == i + 1 {
        -1
    } else {
        0
    }
}

/// Build the discrete Hodge Laplacian for a 1D chain complex of length n.
pub fn discrete_hodge_laplacian(n: usize) -> (l: Vec<Vec<i64>>)
    ensures
        is_square(l@, n as int),
        forall|i: int, j: int|
            0 <= i < n && 0 <= j < n ==> (#[trigger] l@[i]@[j]) == hodge_entry(i, j),
{
    let mut l: Vec<Vec<i64>> = Vec::new();
    let mut i: usize = 0;
    while i < n
        invariant
            i <= n,
            l@.len() == i,
            forall|r: int| 0 <= r < i ==> (#[trigger] l@[r])@.len() == n,
            forall|r: int, c: int|
                0 <= r < i && 0 <= c < n ==> (#[trigger] l@[r]@[c]) == hodge_entry(r, c),
        decreases n - i,
    {
        let mut row: Vec<i64> = Vec::new();
        let mut j: usize = 0;
        while j < n
            invariant
                i < n,
                j <= n,
                row@.len() == j,
                forall|c: int| 0 <= c < j ==> (#[trigger] row@[c]) == hodge_entry(i as int, c),
            decreases n - j,
        {
            let v: i64 = if i == j {
                2
            } else if j + 1 == i || j == i + 1 {
                -1
            } else {
                0
            };
            row.push(v);
            j = j + 1;
        }
        l.push(row);
        i = i + 1;
    }
    l
}

/// The discrete Hodge Laplacian is symmetric, has 2 on its diagonal, and is
/// the negative of the second-difference Laplacian matrix.
pub proof fn lemma_hodge_laplacian_shape(i: int, j: int)
    ensures
        hodge_entry(i, j) == hodge_entry(j, i),
        hodge_entry(i, i) == 2,
        hodge_entry(i, j) == -laplacian_entry(i, j),
{
}

/// Coordinate `j` of `x`, zero outside the vector.
pub open spec fn coord(x: Seq<int>, j: int) -> int {
    if 0 <= j < x.len() {
        x[j]
    } else {
        0
    }
}

/// `Σ_{j < m} Δ_ij x_j`: the first `m` terms of row `i` of `Δx`.
pub open spec fn hodge_row_dot(x: Seq<int>, i: int, m: int) -> int
    decreases m,
{
    if m <= 0 {
        0
    } else {
        hodge_row_dot(x, i, m - 1) + hodge_entry(i, m - 1) * coord(x, m - 1)
    }
}

/// `Σ_{i < m} x_i (Δx)_i`: the first `m` terms of the quadratic form `xᵀΔx`.
pub open spec fn hodge_form_prefix(x: Seq<int>, m: int) -> int
    decreases m,
{
    if m <= 0 {
        0
    } else {
        hodge_form_prefix(x, m - 1) + coord(x, m - 1) * hodge_row_dot(x, m - 1, x.len() as int)
    }
}

/// The quadratic form `xᵀΔx` of the discrete Hodge Laplacian.
pub open spec fn hodge_quadratic_form(x: Seq<int>) -> int {
    hodge_form_prefix(x, x.len() as int)
}

/// `Σ_{i < m} (x_i - x_{i+1})²`: energy of the forward differences.
pub open spec fn difference_energy(x: Seq<int>, m: int) -> int
    decreases m,
{
    if m <= 0 {
        0
    } else {
        difference_energy(x, m - 1) + (coord(x, m - 1) - coord(x, m)) * (coord(x, m - 1) - coord(
            x,
            m,
        ))
    }
}

proof fn lemma_row_dot_prefix(x: Seq<int>, i: int, m: int)
    requires
        0 <= m,
    ensures
        hodge_row_dot(x, i, m) == (if m > i - 1 && i - 1 >= 0 {
            -coord(x, i - 1)
        } else {
            0
        }) + (if m > i && i >= 0 {
            2 * coord(x, i)
        } else {
            0
        }) + (if m > i + 1 && i + 1 >= 0 {
            -coord(x, i + 1)
        } else {
            0
        }),
    decreases m,
{
    if m > 0 {
        lemma_row_dot_prefix(x, i, m - 1);
        let j = m - 1;
        if j == i {
            assert(hodge_entry(i, j) * coord(x, j) == 2 * coord(x, j));
        } else if j == i - 1 || j == i + 1 {
            assert(hodge_entry(i, j) * coord(x, j) == -coord(x, j));
        } else {
            assert(hodge_entry(i, j) * coord(x, j) == 0);
        }
    }
}

/// Row `i` of `Δx` is the stencil `2 x_i - x_{i-1} - x_{i+1}`, with zero
/// outside the chain.
proof fn lemma_row_dot_stencil(x: Seq<int>, i: int)
    requires
        0 <= i < x.len(),
    ensures
        hodge_row_dot(x, i, x.len() as int) == 2 * coord(x, i) - coord(x, i - 1) - coord(x, i + 1),
{
    lemma_row_dot_prefix(x, i, x.len() as int);
}

proof fn lemma_form_prefix(x: Seq<int>, m: int)
    requires
        1 <= m <= x.len(),
    ensures
        hodge_form_prefix(x, m) == coord(x, 0) * coord(x, 0) + difference_energy(x, m - 1) + coord(
            x,
            m - 1,
        ) * coord(x, m - 1) - coord(x, m - 1) * coord(x, m),
    decreases m,
{
    lemma_row_dot_stencil(x, m - 1);
    let row = hodge_row_dot(x, m - 1, x.len() as int);
    assert(hodge_form_prefix(x, m) == hodge_form_prefix(x, m - 1) + coord(x, m - 1) * row);
    if m == 1 {
        let a = coord(x, 0);
        let b = coord(x, 1);
        assert(coord(x, -1) == 0);
        assert(difference_energy(x, 0) == 0);
        assert(hodge_form_prefix(x, 0) == 0);
        assert(row == 2 * a - 0 - b);
        assert(a * (2 * a - 0 - b) == a * a + a * a - a * b) by (nonlinear_arith);
    } else {
        lemma_form_prefix(x, m - 1);
        let p = coord(x, m - 2);
        let q = coord(x, m - 1);
        let r = coord(x, m);
        assert(row == 2 * q - p - r);
        assert(difference_energy(x, m - 1) == difference_energy(x, m - 2) + (p - q) * (p - q));
        assert(q * (2 * q - p - r) == (p - q) * (p - q) + q * q - q * r - p * p + p * q)
            by (nonlinear_arith);
    }
}

/// The quadratic form of the discrete Hodge Laplacian is a sum of squares:
/// `xᵀΔx = x_0² + Σ (x_i - x_{i+1})² + x_{n-1}²`.
pub proof fn lemma_hodge_form_sum_of_squares(x: Seq<int>)
    requires
        x.len() >= 1,
    ensures
        hodge_quadratic_form(x) == x[0] * x[0] + difference_energy(x, x.len() - 1) + x[x.len()
            - 1] * x[x.len() - 1],
{
    lemma_form_prefix(x, x.len() as int);
    assert(coord(x, x.len() as int) == 0);
    assert(coord(x, x.len() - 1) * 0 == 0);
}

proof fn lemma_difference_energy_bounds(x: Seq<int>, m: int, k: int)
    requires
        0 <= k < m,
    ensures
        difference_energy(x, m) >= (coord(x, k) - coord(x, k + 1)) * (coord(x, k) - coord(x, k + 1)),
        difference_energy(x, m) >= 0,
    decreases m,
{
    let d = coord(x, m - 1) - coord(x, m);
    assert(d * d >= 0) by (nonlinear_arith);
    if m - 1 > k {
        lemma_difference_energy_bounds(x, m - 1, k);
    } else if m - 1 > 0 {
        lemma_difference_energy_bounds(x, m - 1, 0);
    } else {
        assert(difference_energy(x, 0) == 0);
    }
}

proof fn lemma_form_positive_from(x: Seq<int>, k: int)
    requires
        x.len() >= 1,
        0 <= k < x.len(),
        x[k] != 0,
    ensures
        x[0] * x[0] + difference_energy(x, x.len() - 1) > 0,
    decreases k,
{
    let n = x.len() as int;
    let a = x[0];
    assert(a * a >= 0) by (nonlinear_arith);
    if n >= 2 {
        lemma_difference_energy_bounds(x, n - 1, 0);
    } else {
        assert(difference_energy(x, 0) == 0);
    }
    if k == 0 {
        assert(a * a > 0) by (nonlinear_arith)
            requires
                a != 0,
        ;
    } else if x[k - 1] != 0 {
        lemma_form_positive_from(x, k - 1);
    } else {
        lemma_difference_energy_bounds(x, n - 1, k - 1);
        let d = coord(x, k - 1) - coord(x, k);
        assert(d != 0);
        assert(d * d > 0) by (nonlinear_arith)
            requires
                d != 0,
        ;
    }
}

/// The discrete Hodge Laplacian is positive definite: `xᵀΔx > 0` for every
/// nonzero vector, so `Δ` is invertible and its Green's operator exists.
pub proof fn lemma_hodge_positive_definite(x: Seq<int>, k: int)
    requires
        0 <= k < x.len(),
        x[k] != 0,
    ensures
        hodge_quadratic_form(x) > 0,
{
    lemma_hodge_form_sum_of_squares(x);
    lemma_form_positive_from(x, k);
    let b = x[x.len() - 1];
    assert(b * b >= 0) by (nonlinear_arith);
}

} // verus!
