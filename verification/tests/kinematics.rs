//! Construction, channel-gating and breakpoint behaviour of the model, on
//! the masses of the two reference parameter points: a dark-matter mass of
//! 1e3 GeV with a mediator at 1e4 GeV (heavy mediator) and with a mediator
//! at 1e2 GeV (light mediator). All energies are in electronvolts.

use kinetic_mixing::channels::KineticMixingFinalStates;
use kinetic_mixing::params::{KineticMixing, ModelError};
use kinetic_mixing::thermal::SingularPoint;

const GEV: u64 = 1_000_000_000;

fn heavy_mediator_model() -> KineticMixing {
    // mx = 1e3 GeV, mv = 1e4 GeV, gvxx = 1.0, eps = 1e-3
    KineticMixing::new(1_000 * GEV, 10_000 * GEV, 1_000_000_000, 1_000_000).unwrap()
}

fn light_mediator_model() -> KineticMixing {
    // mx = 1e3 GeV, mv = 1e2 GeV, gvxx = 1.0, eps = 1e-3
    KineticMixing::new(1_000 * GEV, 100 * GEV, 1_000_000_000, 1_000_000).unwrap()
}

#[test]
fn construction_accepts_positive_masses() {
    let k = heavy_mediator_model();
    assert_eq!(k.mx, 1_000 * GEV);
    assert_eq!(k.mv, 10_000 * GEV);
    assert_eq!(k.gvxx, 1_000_000_000);
    assert_eq!(k.eps, 1_000_000);
}

#[test]
fn construction_rejects_zero_dark_matter_mass() {
    assert_eq!(
        KineticMixing::new(0, 100 * GEV, 1, 1),
        Err(ModelError::NonPositiveDarkMatterMass)
    );
}

#[test]
fn construction_rejects_zero_mediator_mass() {
    assert_eq!(
        KineticMixing::new(1_000 * GEV, 0, 1, 1),
        Err(ModelError::NonPositiveMediatorMass)
    );
}

#[test]
fn construction_is_deterministic() {
    let a = KineticMixing::new(1_000 * GEV, 10_000 * GEV, 7, -3);
    let b = KineticMixing::new(1_000 * GEV, 10_000 * GEV, 7, -3);
    assert_eq!(a, b);
}

#[test]
fn total_cross_section_vanishes_below_pair_threshold() {
    let k = heavy_mediator_model();
    // 2 * mx = 2e3 GeV
    assert!(k.total_cross_section_vanishes(2_000 * GEV));
    assert!(k.total_cross_section_vanishes(2_000 * GEV - 1));
    assert!(k.total_cross_section_vanishes(0));
}

#[test]
fn total_cross_section_opens_just_above_pair_threshold() {
    let k = heavy_mediator_model();
    assert!(!k.total_cross_section_vanishes(2_000 * GEV + 1));
    assert!(!k.total_cross_section_vanishes(3_000 * GEV));
}

#[test]
fn fermion_channels_gate_on_both_thresholds() {
    let k = heavy_mediator_model();
    let top: u64 = 172_900_000_000; // 172.9 GeV
    // Above 2 * mx and above 2 * mf.
    assert!(k.fermion_channel_open(2_001 * GEV, top));
    // Above 2 * mf but not above 2 * mx.
    assert!(!k.fermion_channel_open(1_999 * GEV, top));
    // With lighter dark matter the fermion pair mass is the binding threshold.
    let light = KineticMixing::new(100 * GEV, 10_000 * GEV, 1_000_000_000, 1_000_000).unwrap();
    assert!(!light.fermion_channel_open(300 * GEV, top));
    assert!(light.fermion_channel_open(346 * GEV, top));
}

#[test]
fn neutrino_channel_is_open_above_pair_threshold_alone() {
    let k = heavy_mediator_model();
    assert!(k.neutrino_channel_open(2_000 * GEV + 1));
    assert!(!k.neutrino_channel_open(2_000 * GEV));
}

#[test]
fn higgs_z_channel_needs_the_summed_boson_mass() {
    // Light dark matter so the pair threshold is far below the boson sum.
    let k = KineticMixing::new(10 * GEV, 10_000 * GEV, 1_000_000_000, 1_000_000).unwrap();
    // Higgs + Z = 125.1 GeV + 91.1876 GeV = 216.2876 GeV.
    assert!(!k.higgs_z_channel_open(216 * GEV));
    assert!(k.higgs_z_channel_open(217 * GEV));
}

#[test]
fn mediator_pair_channel_needs_twice_the_mediator_mass() {
    let k = light_mediator_model();
    // mv = 100 GeV, mx = 1000 GeV: the pair threshold 2 * mx dominates.
    assert!(!k.mediator_pair_channel_open(2_000 * GEV));
    assert!(k.mediator_pair_channel_open(2_000 * GEV + 1));
    // Heavy mediator: 2 * mv = 2e4 GeV dominates.
    let h = heavy_mediator_model();
    assert!(!h.mediator_pair_channel_open(20_000 * GEV));
    assert!(h.mediator_pair_channel_open(20_000 * GEV + 1));
}

#[test]
fn decay_channels_for_a_heavy_mediator() {
    let k = heavy_mediator_model();
    // mv = 1e4 GeV is above every two-body threshold of the model.
    assert!(k.decay_channel_open(KineticMixingFinalStates::TT));
    assert!(k.decay_channel_open(KineticMixingFinalStates::HiggsZ));
    assert!(k.decay_channel_open(KineticMixingFinalStates::XX));
    assert!(k.decay_channel_open(KineticMixingFinalStates::NueNue));
    assert!(k.decay_channel_open(KineticMixingFinalStates::EE));
}

#[test]
fn decay_channels_for_a_light_mediator() {
    let k = light_mediator_model();
    // mv = 100 GeV: the top pair (345.8 GeV), Higgs+Z (216.3 GeV) and
    // dark-matter pair (2000 GeV) thresholds are all above it.
    assert!(!k.decay_channel_open(KineticMixingFinalStates::TT));
    assert!(!k.decay_channel_open(KineticMixingFinalStates::HiggsZ));
    assert!(!k.decay_channel_open(KineticMixingFinalStates::XX));
    assert!(k.decay_channel_open(KineticMixingFinalStates::BB));
    assert!(k.decay_channel_open(KineticMixingFinalStates::MuMu));
    assert!(k.decay_channel_open(KineticMixingFinalStates::NumuNumu));
}

#[test]
fn decay_thresholds_are_exact() {
    // Each channel opens exactly one electronvolt above twice the pair
    // mass (or the summed boson mass); dark matter of 1 eV keeps the
    // dark-matter-pair threshold out of the way.
    let cases: Vec<(KineticMixingFinalStates, u64)> = vec![
        (KineticMixingFinalStates::UU, 2 * 2_160_000),
        (KineticMixingFinalStates::CC, 2 * 1_270_000_000),
        (KineticMixingFinalStates::TT, 2 * 172_900_000_000),
        (KineticMixingFinalStates::DD, 2 * 4_670_000),
        (KineticMixingFinalStates::SS, 2 * 93_400_000),
        (KineticMixingFinalStates::BB, 2 * 4_180_000_000),
        (KineticMixingFinalStates::EE, 2 * 510_999),
        (KineticMixingFinalStates::MuMu, 2 * 105_658_375),
        (KineticMixingFinalStates::TauTau, 2 * 1_776_860_000),
        (KineticMixingFinalStates::HiggsZ, 125_100_000_000 + 91_187_600_000),
        (KineticMixingFinalStates::XX, 2 * 7),
    ];
    for (fs, threshold) in cases {
        let at = KineticMixing::new(7, threshold, 1, 1).unwrap();
        let above = KineticMixing::new(7, threshold + 1, 1, 1).unwrap();
        assert!(!at.decay_channel_open(fs), "{fs:?} must be closed at its threshold");
        assert!(above.decay_channel_open(fs), "{fs:?} must be open above its threshold");
    }
}

#[test]
fn open_decay_channels_lists_each_open_channel_once() {
    let k = light_mediator_model();
    let open = k.open_decay_channels();
    // Everything but TT, HiggsZ and XX is open at mv = 100 GeV.
    assert_eq!(open.len(), 11);
    assert!(open.contains(&KineticMixingFinalStates::UU));
    assert!(open.contains(&KineticMixingFinalStates::BB));
    assert!(!open.contains(&KineticMixingFinalStates::TT));
    assert!(!open.contains(&KineticMixingFinalStates::HiggsZ));
    assert!(!open.contains(&KineticMixingFinalStates::XX));
    assert!(!open.contains(&KineticMixingFinalStates::All));
}

#[test]
fn channel_list_is_the_closed_set() {
    let all = kinetic_mixing::channels::all_final_states();
    assert_eq!(all.len(), 14);
    assert!(!all.contains(&KineticMixingFinalStates::All));
    assert!(all.contains(&KineticMixingFinalStates::NutauNutau));
    // No channel appears twice.
    for i in 0..all.len() {
        for j in (i + 1)..all.len() {
            assert_ne!(all[i], all[j]);
        }
    }
}

#[test]
fn breakpoints_for_a_heavy_mediator() {
    // Scenario with mv / mx = 10 > 2: both the resonance and the
    // mediator-pair threshold lie inside the integration interval and must
    // be handed to the quadrature.
    let k = heavy_mediator_model();
    let pts = k.singular_points();
    assert_eq!(
        pts,
        vec![
            SingularPoint { num: 10_000 * GEV, den: 1_000 * GEV },
            SingularPoint { num: 20_000 * GEV, den: 1_000 * GEV },
        ]
    );
}

#[test]
fn breakpoints_for_a_light_mediator() {
    // mv < mx: both points lie below the lower end of the integral and
    // none is supplied.
    let k = light_mediator_model();
    assert_eq!(k.singular_points(), vec![]);
}

#[test]
fn breakpoints_at_the_resonance_boundary() {
    // mv = 2 * mx puts the resonance exactly on the lower end of the
    // integral, which is not inside it; only the mediator-pair threshold
    // (z = 4) is supplied.
    let k = KineticMixing::new(1_000 * GEV, 2_000 * GEV, 1_000_000_000, 1_000_000).unwrap();
    assert_eq!(
        k.singular_points(),
        vec![SingularPoint { num: 4_000 * GEV, den: 1_000 * GEV }]
    );
    // mv = mx puts the mediator-pair threshold exactly on the lower end:
    // nothing is supplied.
    let e = KineticMixing::new(1_000 * GEV, 1_000 * GEV, 1_000_000_000, 1_000_000).unwrap();
    assert_eq!(e.singular_points(), vec![]);
}

#[test]
fn gates_hold_for_extreme_masses() {
    // With the largest representable dark-matter mass no collision energy
    // reaches the pair threshold, so everything is closed.
    let k = KineticMixing::new(u64::MAX, 100 * GEV, 1_000_000_000, 1_000_000).unwrap();
    assert!(k.total_cross_section_vanishes(u64::MAX));
    assert!(!k.neutrino_channel_open(u64::MAX));
    assert!(!k.fermion_channel_open(u64::MAX, 510_999));
}

#[test]
fn breakpoints_between_the_two_regimes() {
    // mx < mv <= 2 * mx: only the mediator-pair threshold is inside the
    // interval.
    let k = KineticMixing::new(1_000 * GEV, 1_500 * GEV, 1_000_000_000, 1_000_000).unwrap();
    assert_eq!(
        k.singular_points(),
        vec![SingularPoint { num: 3_000 * GEV, den: 1_000 * GEV }]
    );
}
