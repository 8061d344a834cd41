//! Integer and index logic of the Hodge–Kalman–spectral bridge: the spectral
//! band split, the discrete Laplacian stencils, the block layout of stacked
//! observation matrices and the averaging window of the steady-state estimate.
pub mod gramian;
pub mod greens;
pub mod hodge;
pub mod kalman;
pub mod spectral;
