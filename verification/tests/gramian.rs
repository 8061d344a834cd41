use lau_kalman_hodge::gramian::stacked_row;

#[test]
fn stacked_rows_of_single_row_blocks_follow_the_steps() {
    // O = [H; HF; HF²] with a single observed row per block
    assert_eq!(stacked_row(0, 0, 1, 3), 0);
    assert_eq!(stacked_row(1, 0, 1, 3), 1);
    assert_eq!(stacked_row(2, 0, 1, 3), 2);
}

#[test]
fn stacked_rows_cover_the_matrix_once() {
    let (block_rows, n_blocks) = (3, 4);
    let mut seen = vec![false; block_rows * n_blocks];
    for step in 0..n_blocks {
        for r in 0..block_rows {
            let row = stacked_row(step, r, block_rows, n_blocks);
            assert_eq!(row / block_rows, step);
            assert_eq!(row % block_rows, r);
            assert!(!seen[row]);
            seen[row] = true;
        }
    }
    assert!(seen.iter().all(|s| *s));
}
