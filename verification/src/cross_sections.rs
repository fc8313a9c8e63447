//! Kinematic openness of the annihilation channels.
//!
//! A pair of dark-matter particles with collision energy `cme` can
//! annihilate at all only above the pair-production threshold
//! `cme > 2 * mx`; each final state adds its own production threshold on
//! top. Below a channel's threshold its cross section is exactly zero by
//! convention, not by error. The total cross section sums three up-type
//! quark channels, three down-type quark channels, three charged-lepton
//! channels, the neutrino channel for each of the three flavors, the
//! Higgs-plus-Z channel once, and the mediator-pair channel; since the
//! neutrino channels carry no threshold beyond `2 * mx`, the total vanishes
//! exactly on `cme <= 2 * mx`.

use vstd::prelude::*;
use crate::constants::{UP_QUARK_MASS_EV, CHARM_QUARK_MASS_EV, TOP_QUARK_MASS_EV, DOWN_QUARK_MASS_EV, STRANGE_QUARK_MASS_EV, BOTTOM_QUARK_MASS_EV, ELECTRON_MASS_EV, MUON_MASS_EV, TAU_MASS_EV, HIGGS_MASS_EV, Z_BOSON_MASS_EV};
use crate::params::KineticMixing;

verus! {

/// A fermion-pair channel is open: the collision energy is above both the
/// dark-matter pair threshold and the fermion pair threshold.
pub open spec fn spec_fermion_channel_open(mx: u64, cme: u64, mf: u64) -> bool {
    cme > 2 * mx && cme > 2 * mf
}

/// The neutrino channel is open: neutrinos are massless here, so only the
/// dark-matter pair threshold gates it.
pub open spec fn spec_neutrino_channel_open(mx: u64, cme: u64) -> bool {
    cme > 2 * mx
}

/// The Higgs-plus-Z channel is open.
pub open spec fn spec_higgs_z_channel_open(mx: u64, cme: u64) -> bool {
    cme > 2 * mx && cme > HIGGS_MASS_EV + Z_BOSON_MASS_EV
}

/// The mediator-pair channel is open.
pub open spec fn spec_mediator_pair_channel_open(mx: u64, mv: u64, cme: u64) -> bool {
    cme > 2 * mx && cme > 2 * mv
}

/// Some annihilation channel of the total cross section is open.
pub open spec fn spec_any_annihilation_channel_open(k: KineticMixing, cme: u64) -> bool {
    ||| spec_fermion_channel_open(k.mx, cme, UP_QUARK_MASS_EV)
    ||| spec_fermion_channel_open(k.mx, cme, CHARM_QUARK_MASS_EV)
    ||| spec_fermion_channel_open(k.mx, cme, TOP_QUARK_MASS_EV)
    ||| spec_fermion_channel_open(k.mx, cme, DOWN_QUARK_MASS_EV)
    ||| spec_fermion_channel_open(k.mx, cme, STRANGE_QUARK_MASS_EV)
    ||| spec_fermion_channel_open(k.mx, cme, BOTTOM_QUARK_MASS_EV)
    ||| spec_fermion_channel_open(k.mx, cme, ELECTRON_MASS_EV)
    ||| spec_fermion_channel_open(k.mx, cme, MUON_MASS_EV)
    ||| spec_fermion_channel_open(k.mx, cme, TAU_MASS_EV)
    ||| spec_neutrino_channel_open(k.mx, cme)
    ||| spec_higgs_z_channel_open(k.mx, cme)
    ||| spec_mediator_pair_channel_open(k.mx, k.mv, cme)
}

impl KineticMixing {
    /// Decides whether annihilation into a fermion pair of mass `mf` is
    /// kinematically open at collision energy `cme`. Shared by the up-type
    /// quark, down-type quark and charged-lepton channels, whose gates
    /// differ only in the fermion mass.
    pub fn fermion_channel_open(&self, cme: u64, mf: u64) -> (r: bool)
        ensures
            r == spec_fermion_channel_open(self.mx, cme, mf),
    {
        self.mx <= u64::MAX / 2 && cme > 2 * self.mx && mf <= u64::MAX / 2 && cme > 2 * mf
    }

    /// Decides whether annihilation into a neutrino pair is open: the
    /// collision energy is above the dark-matter pair threshold.
    pub fn neutrino_channel_open(&self, cme: u64) -> (r: bool)
        ensures
            r == spec_neutrino_channel_open(self.mx, cme),
    {
        self.mx <= u64::MAX / 2 && cme > 2 * self.mx
    }

    /// Decides whether annihilation into a Higgs boson and a Z boson is
    /// open.
    pub fn higgs_z_channel_open(&self, cme: u64) -> (r: bool)
        ensures
            r == spec_higgs_z_channel_open(self.mx, cme),
    {
        self.mx <= u64::MAX / 2 && cme > 2 * self.mx && cme > HIGGS_MASS_EV + Z_BOSON_MASS_EV
    }

    /// Decides whether annihilation into a pair of mediators is open.
    pub fn mediator_pair_channel_open(&self, cme: u64) -> (r: bool)
        ensures
            r == spec_mediator_pair_channel_open(self.mx, self.mv, cme),
    {
        self.mx <= u64::MAX / 2 && cme > 2 * self.mx && self.mv <= u64::MAX / 2 && cme > 2
            * self.mv
    }

    /// Decides whether the total annihilation cross section vanishes at the
    /// given collision energy: true exactly when every channel is closed,
    /// which happens exactly on `cme <= 2 * mx` — the always-open-above-
    /// threshold neutrino channels make the two conditions one.
    pub fn total_cross_section_vanishes(&self, cme: u64) -> (r: bool)
        ensures
            r == !spec_any_annihilation_channel_open(*self, cme),
            r == (cme <= 2 * self.mx),
    {
        proof {
            lemma_total_threshold(*self, cme);
        }
        !(self.mx <= u64::MAX / 2 && cme > 2 * self.mx)
    }
}

/// The resonant denominator `(mv^2 - cme^2)^2 + mv^2 * width^2` that every
/// open-channel cross-section formula divides by, over exact integers.
pub open spec fn spec_breit_wigner_denominator(mv: int, cme: int, width: int) -> int {
    (mv * mv - cme * cme) * (mv * mv - cme * cme) + mv * mv * width * width
}

/// The regulator law: with a positive mediator mass and a nonzero total
/// width the resonant denominator is strictly positive, even where the
/// collision energy sits exactly on the resonance — no channel formula
/// divides by zero there.
pub proof fn lemma_breit_wigner_positive(mv: int, cme: int, width: int)
    requires
        mv > 0,
        width != 0,
    ensures
        spec_breit_wigner_denominator(mv, cme, width) > 0,
{
    let d = mv * mv - cme * cme;
    let w2 = mv * mv * width * width;
    assert(d * d + w2 > 0) by (nonlinear_arith)
        requires
            mv > 0,
            width != 0,
            d == mv * mv - cme * cme,
            w2 == mv * mv * width * width,
    ;
}

/// The two-sided threshold law: some channel of the total cross section is
/// open exactly when the collision energy exceeds the dark-matter pair
/// threshold. Below or at `2 * mx` every channel is closed, so the total
/// cross section is exactly zero; above it the neutrino channels are open,
/// so the total has an open summand.
pub proof fn lemma_total_threshold(k: KineticMixing, cme: u64)
    ensures
        spec_any_annihilation_channel_open(k, cme) <==> cme > 2 * k.mx,
{
}

} // verus!
