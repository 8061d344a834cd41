# lau-kalman-hodge

The Hodge–Kalman–spectral bridge: Kalman filtering, Hodge decomposition of
observation data, FFT band splitting, observability Gramians and Green's
operators.

- `src/` is the verified library: the integer and index logic of the bridge.
  It holds the spectral band split (`spectral`), the second-difference and
  chain Hodge Laplacian stencils with their laws, including positive
  definiteness of the chain Laplacian (`hodge`, `greens`), the block layout of
  stacked observability matrices (`gramian`) and the averaging window of the
  steady-state estimate (`kalman`).
- `app/` is the `f64` side, built on nalgebra, rustfft and serde: sections,
  bundles, the Kalman filter, the decompositions and the belief estimator.
  It calls the library for every decision above.
- `tests/` runs the library on concrete values.
