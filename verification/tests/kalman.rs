use lau_kalman_hodge::kalman::{steady_state_window, STEADY_STATE_WINDOW};

#[test]
fn steady_state_window_takes_last_ten() {
    assert_eq!(STEADY_STATE_WINDOW, 10);
    assert_eq!(steady_state_window(30), (20, 10));
    assert_eq!(steady_state_window(10), (0, 10));
}

#[test]
fn steady_state_window_takes_all_of_a_short_run() {
    assert_eq!(steady_state_window(4), (0, 4));
    assert_eq!(steady_state_window(0), (0, 0));
}
