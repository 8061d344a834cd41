//! Which filtered states the steady-state estimate averages.
use vstd::prelude::*;

verus! {

/// How many of the most recent states the steady-state estimate averages.
pub const STEADY_STATE_WINDOW: usize = 10;

/// The states averaged by the steady-state estimate of a run of `n_states`
/// states: `(start, count)`, the last `min(n_states, 10)` of them.
pub fn steady_state_window(n_states: usize) -> (w: (usize, usize))
    ensures
        w.1 == (if n_states < STEADY_STATE_WINDOW {
            n_states
        } else {
            STEADY_STATE_WINDOW
        }),
        w.0 + w.1 == n_states,
{
    let count = if n_states < STEADY_STATE_WINDOW {
        n_states
    } else {
        STEADY_STATE_WINDOW
    };
    (n_states - count, count)
}

} // verus!
