//! Block layout of the stacked observability matrix `O = [H; HF; HF²; …]`:
//! block `step` (the rows of `H F^step`) sits below the earlier blocks.
use vstd::prelude::*;
use vstd::arithmetic::div_mod::{lemma_fundamental_div_mod_converse};
use vstd::arithmetic::mul::{lemma_mul_inequality, lemma_mul_is_distributive_add_other_way};

verus! {

/// Row of the stacked matrix that holds row `r` of block `step`, where each
/// block has `block_rows` rows and there are `n_blocks` blocks.
pub fn stacked_row(step: usize, r: usize, block_rows: usize, n_blocks: usize) -> (row: usize)
    requires
        step < n_blocks,
        r < block_rows,
        block_rows * n_blocks <= usize::MAX,
    ensures
        row == step * block_rows + r,
        row < block_rows * n_blocks,
{
    proof {
        lemma_mul_inequality(step as int + 1, n_blocks as int, block_rows as int);
        lemma_mul_is_distributive_add_other_way(block_rows as int, step as int, 1);
        assert(block_rows * n_blocks == n_blocks * block_rows) by (nonlinear_arith);
    }
    step * block_rows + r
}

/// The layout is one to one: a stacked row determines its block and its row
/// within the block.
pub proof fn lemma_stacked_row_inverse(step: int, r: int, block_rows: int)
    requires
        0 <= step,
        0 <= r < block_rows,
    ensures
        (step * block_rows + r) / block_rows == step,
        (step * block_rows + r) % block_rows == r,
{
    assert(step * block_rows == block_rows * step) by (nonlinear_arith);
    lemma_fundamental_div_mod_converse(step * block_rows + r, block_rows, step, r);
}

} // verus!
