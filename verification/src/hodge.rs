//! The matrix of the discrete second-difference Laplacian on a chain of
//! state points: `(Δf)_i = f_{i-1} - 2 f_i + f_{i+1}`.
use vstd::prelude::*;

verus! {

/// Entry `(i, j)` of the second-difference Laplacian.
pub open spec fn laplacian_entry(i: int, j: int) -> int {
    if i == j {
        -2
    } else if j == i - 1 || j == i + 1 {
        1
    } else {
        0
    }
}

/// A square `n × n` integer matrix, stored row by row.
pub open spec fn is_square(m: Seq<Vec<i64>>, n: int) -> bool {
    &&& m.len() == n
    &&& forall|i: int| 0 <= i < n ==> (#[trigger] m[i])@.len() == n
}

/// Sum of the first `m` entries of row `i` of the Laplacian.
pub open spec fn laplacian_row_sum(i: int, m: int) -> int
    decreases m,
{
    if m <= 0 {
        0
    } else {
        laplacian_row_sum(i, m - 1) + laplacian_entry(i, m - 1)
    }
}

/// Build the matrix representation of the Hodge Laplacian.
pub fn laplacian_matrix(n: usize) -> (l: Vec<Vec<i64>>)
    ensures
        is_square(l@, n as int),
        forall|i: int, j: int|
            0 <= i < n && 0 <= j < n ==> (#[trigger] l@[i]@[j]) == laplacian_entry(i, j),
{
    let mut l: Vec<Vec<i64>> = Vec::new();
    let mut i: usize = 0;
    while i < n
        invariant
            i <= n,
            l@.len() == i,
            forall|r: int| 0 <= r < i ==> (#[trigger] l@[r])@.len() == n,
            forall|r: int, c: int|
                0 <= r < i && 0 <= c < n ==> (#[trigger] l@[r]@[c]) == laplacian_entry(r, c),
        decreases n - i,
    {
        let mut row: Vec<i64> = Vec::new();
        let mut j: usize = 0;
        while j < n
            invariant
                i < n,
                j <= n,
                row@.len() == j,
                forall|c: int| 0 <= c < j ==> (#[trigger] row@[c]) == laplacian_entry(i as int, c),
            decreases n - j,
        {
            let v: i64 = if i == j {
                -2
            } else if j + 1 == i || j == i + 1 {
                1
            } else {
                0
            };
            row.push(v);
            j = j + 1;
        }
        l.push(row);
        i = i + 1;
    }
    l
}

/// The Laplacian matrix is symmetric.
pub proof fn lemma_laplacian_symmetric(i: int, j: int)
    ensures
        laplacian_entry(i, j) == laplacian_entry(j, i),
{
}

proof fn lemma_laplacian_row_prefix(i: int, m: int)
    requires
        i >= 1,
        m >= 0,
    ensures
        laplacian_row_sum(i, m) == (if m < i {
            0
        } else if m == i {
            1
        } else if m == i + 1 {
            -1
        } else {
            0
        }),
    decreases m,
{
    if m > 0 {
        lemma_laplacian_row_prefix(i, m - 1);
    }
}

/// The Laplacian annihilates constant vectors on every interior row: the
/// entries of a row `0 < i < n - 1` add up to zero.
pub proof fn lemma_laplacian_interior_rows_sum_to_zero(n: int, i: int)
    requires
        0 < i < n - 1,
    ensures
        laplacian_row_sum(i, n) == 0,
{
    lemma_laplacian_row_prefix(i, n);
}

} // verus!
