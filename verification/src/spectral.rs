//! Spectral projection: which frequency index goes to which Hodge component.
//!
//! The harmonic component is the zero-frequency (DC) term, frequencies below
//! the cutoff form the exact component, and the remaining frequencies form
//! the coexact component.
use vstd::prelude::*;

verus! {

/// Index 0 (the DC term) is the harmonic band.
pub open spec fn in_harmonic_band(k: int) -> bool {
    k == 0
}

/// Frequencies `1..cutoff` form the exact band.
pub open spec fn in_exact_band(cutoff: int, k: int) -> bool {
    1 <= k && k < cutoff
}

/// Frequencies `cutoff..` other than the DC term form the coexact band.
pub open spec fn in_coexact_band(cutoff: int, k: int) -> bool {
    1 <= k && cutoff <= k
}

/// Spectral projector using FFT.
pub struct SpectralProjector {
    /// Cutoff frequency index: below = exact, from it on = coexact.
    pub cutoff: usize,
}

/// The three frequency masks of a spectrum of a given length: entry `k` of a
/// mask tells whether frequency `k` is kept in that component.
pub struct SpectralBands {
    pub harmonic: Vec<bool>,
    pub exact: Vec<bool>,
    pub coexact: Vec<bool>,
}

/// Cutoff chosen by `SpectralProjector::auto`: a third of the points, at least one.
pub open spec fn auto_cutoff(n_points: nat) -> nat {
    if n_points / 3 >= 1 {
        n_points / 3
    } else {
        1
    }
}

impl SpectralProjector {
    /// Create a new spectral projector with given frequency cutoff.
    pub fn new(cutoff: usize) -> (p: Self)
        ensures
            p.cutoff == cutoff,
    {
        Self { cutoff }
    }

    /// Create with automatic cutoff (1/3 of spectrum → exact, 2/3 → coexact).
    pub fn auto(n_points: usize) -> (p: Self)
        ensures
            p.cutoff == auto_cutoff(n_points as nat),
    {
        let third = n_points / 3;
        let cutoff = if third >= 1 {
            third
        } else {
            1
        };
        Self { cutoff }
    }

    /// The masks that split a spectrum of `n` frequencies into the harmonic,
    /// exact and coexact components.
    pub fn bands(&self, n: usize) -> (b: SpectralBands)
        ensures
            b.harmonic@.len() == n,
            b.exact@.len() == n,
            b.coexact@.len() == n,
            forall|k: int| 0 <= k < n ==> (#[trigger] b.harmonic@[k] <==> k == 0),
            forall|k: int| 0 <= k < n ==> (#[trigger] b.exact@[k] <==> (1 <= k && k < self.cutoff)),
            forall|k: int|
                0 <= k < n ==> (#[trigger] b.coexact@[k] <==> (1 <= k && self.cutoff <= k)),
            forall|k: int| 0 <= k < n ==> (#[trigger] b.harmonic@[k] <==> in_harmonic_band(k)),
            forall|k: int|
                0 <= k < n ==> (#[trigger] b.exact@[k] <==> in_exact_band(self.cutoff as int, k)),
            forall|k: int|
                0 <= k < n ==> (#[trigger] b.coexact@[k] <==> in_coexact_band(
                    self.cutoff as int,
                    k,
                )),
    {
        let mut harmonic: Vec<bool> = Vec::new();
        let mut exact: Vec<bool> = Vec::new();
        let mut coexact: Vec<bool> = Vec::new();
        let mut k: usize = 0;
        while k < n
            invariant
                k <= n,
                harmonic@.len() == k,
                exact@.len() == k,
                coexact@.len() == k,
                forall|j: int| 0 <= j < k ==> (#[trigger] harmonic@[j] <==> j == 0),
                forall|j: int| 0 <= j < k ==> (#[trigger] exact@[j] <==> (1 <= j && j < self.cutoff)),
                forall|j: int|
                    0 <= j < k ==> (#[trigger] coexact@[j] <==> (1 <= j && self.cutoff <= j)),
                forall|j: int| 0 <= j < k ==> (#[trigger] harmonic@[j] <==> in_harmonic_band(j)),
                forall|j: int|
                    0 <= j < k ==> (#[trigger] exact@[j] <==> in_exact_band(self.cutoff as int, j)),
                forall|j: int|
                    0 <= j < k ==> (#[trigger] coexact@[j] <==> in_coexact_band(
                        self.cutoff as int,
                        j,
                    )),
            decreases n - k,
        {
            harmonic.push(k == 0);
            exact.push(1 <= k && k < self.cutoff);
            coexact.push(1 <= k && self.cutoff <= k);
            k = k + 1;
        }
        SpectralBands { harmonic, exact, coexact }
    }
}

/// Every frequency index belongs to exactly one of the three Hodge bands, so
/// the harmonic, exact and coexact parts of a spectrum add up to the whole.
pub proof fn lemma_bands_partition(cutoff: int, k: int)
    requires
        0 <= k,
    ensures
        in_harmonic_band(k) || in_exact_band(cutoff, k) || in_coexact_band(cutoff, k),
        !(in_harmonic_band(k) && in_exact_band(cutoff, k)),
        !(in_harmonic_band(k) && in_coexact_band(cutoff, k)),
        !(in_exact_band(cutoff, k) && in_coexact_band(cutoff, k)),
{
}

/// The cutoff is the boundary between the exact and coexact bands: every
/// frequency `1 <= k < cutoff` is exact and not coexact, every frequency
/// `k >= max(cutoff, 1)` is coexact and not exact, and only the DC term is
/// harmonic.
pub proof fn lemma_band_boundaries(cutoff: int, k: int)
    requires
        0 <= k,
    ensures
        k == 0 ==> in_harmonic_band(k) && !in_exact_band(cutoff, k) && !in_coexact_band(cutoff, k),
        1 <= k < cutoff ==> in_exact_band(cutoff, k) && !in_coexact_band(cutoff, k)
            && !in_harmonic_band(k),
        1 <= k && cutoff <= k ==> in_coexact_band(cutoff, k) && !in_exact_band(cutoff, k)
            && !in_harmonic_band(k),
{
}

/// Raising the cutoff moves frequencies from the coexact band to the exact
/// band and never the other way: a frequency exact under one cutoff is exact
/// under every larger one, and the exact band under cutoff `c` has exactly
/// `c - 1` members when `c >= 1`, namely `1, …, c - 1`.
pub proof fn lemma_exact_band_grows_with_cutoff(c1: int, c2: int, k: int)
    requires
        c1 <= c2,
        0 <= k,
    ensures
        in_exact_band(c1, k) ==> in_exact_band(c2, k),
        in_coexact_band(c2, k) ==> in_coexact_band(c1, k),
        c1 >= 1 ==> (in_exact_band(c1, k) <==> (1 <= k && k <= c1 - 1)),
        in_exact_band(c1 + 1, c1) <==> c1 >= 1,
        in_coexact_band(c1, c1) <==> c1 >= 1,
{
}

/// The automatic cutoff is at least one and, from three points on, keeps the
/// exact band within the first third of the spectrum.
pub proof fn lemma_auto_cutoff_third(n_points: nat)
    ensures
        auto_cutoff(n_points) >= 1,
        n_points >= 3 ==> 3 * auto_cutoff(n_points) <= n_points,
        n_points >= 3 ==> n_points < 3 * auto_cutoff(n_points) + 3,
{
}

} // verus!
