use lau_kalman_hodge::spectral::SpectralProjector;

#[test]
fn test_spectral_projector_cutoff() {
    let proj = SpectralProjector::new(3);
    assert_eq!(proj.cutoff, 3);
}

#[test]
fn auto_cutoff_is_a_third_of_the_points() {
    assert_eq!(SpectralProjector::auto(8).cutoff, 2);
    assert_eq!(SpectralProjector::auto(9).cutoff, 3);
    assert_eq!(SpectralProjector::auto(20).cutoff, 6);
    assert_eq!(SpectralProjector::auto(30).cutoff, 10);
}

#[test]
fn auto_cutoff_is_at_least_one() {
    assert_eq!(SpectralProjector::auto(0).cutoff, 1);
    assert_eq!(SpectralProjector::auto(2).cutoff, 1);
}

#[test]
fn bands_of_auto_projector_on_eight_points() {
    let bands = SpectralProjector::auto(8).bands(8);
    assert_eq!(bands.harmonic, vec![true, false, false, false, false, false, false, false]);
    assert_eq!(bands.exact, vec![false, true, false, false, false, false, false, false]);
    assert_eq!(bands.coexact, vec![false, false, true, true, true, true, true, true]);
}

#[test]
fn bands_with_zero_cutoff_send_all_but_dc_to_coexact() {
    let bands = SpectralProjector::new(0).bands(4);
    assert_eq!(bands.harmonic, vec![true, false, false, false]);
    assert_eq!(bands.exact, vec![false, false, false, false]);
    assert_eq!(bands.coexact, vec![false, true, true, true]);
}

#[test]
fn bands_partition_every_frequency() {
    for cutoff in 0..12 {
        let bands = SpectralProjector::new(cutoff).bands(10);
        for k in 0..10 {
            let hits = [bands.harmonic[k], bands.exact[k], bands.coexact[k]]
                .iter()
                .filter(|b| **b)
                .count();
            assert_eq!(hits, 1);
        }
    }
}

#[test]
fn bands_of_empty_spectrum_are_empty() {
    let bands = SpectralProjector::new(3).bands(0);
    assert!(bands.harmonic.is_empty());
    assert!(bands.exact.is_empty());
    assert!(bands.coexact.is_empty());
}
