//! Kinematic openness of the mediator's decay channels.
//!
//! A two-body decay channel is open exactly when the mediator mass exceeds
//! the summed mass of the pair it decays into; a closed channel has partial
//! width exactly zero by convention, not by error. The magnitudes of the
//! open-channel widths are continuous functions of the masses and couplings
//! and are computed outside this crate; the openness decisions below are
//! what gates them.

use vstd::prelude::*;
use crate::channels::KineticMixingFinalStates;
use crate::constants::{UP_QUARK_MASS_EV, CHARM_QUARK_MASS_EV, TOP_QUARK_MASS_EV, DOWN_QUARK_MASS_EV, STRANGE_QUARK_MASS_EV, BOTTOM_QUARK_MASS_EV, ELECTRON_MASS_EV, MUON_MASS_EV, TAU_MASS_EV, HIGGS_MASS_EV, Z_BOSON_MASS_EV};
use crate::params::KineticMixing;

verus! {

/// The summed final-state mass that the mediator mass must exceed for the
/// channel to be open. Neutrinos are massless here, so their channels are
/// always open; the aggregate `All` is open as soon as any channel is,
/// which the always-open neutrino channels guarantee.
pub open spec fn spec_decay_threshold_ev(fs: KineticMixingFinalStates, mx: u64) -> int {
    match fs {
        KineticMixingFinalStates::All => 0,
        KineticMixingFinalStates::XX => 2 * mx,
        KineticMixingFinalStates::UU => 2 * UP_QUARK_MASS_EV,
        KineticMixingFinalStates::CC => 2 * CHARM_QUARK_MASS_EV,
        KineticMixingFinalStates::TT => 2 * TOP_QUARK_MASS_EV,
        KineticMixingFinalStates::DD => 2 * DOWN_QUARK_MASS_EV,
        KineticMixingFinalStates::SS => 2 * STRANGE_QUARK_MASS_EV,
        KineticMixingFinalStates::BB => 2 * BOTTOM_QUARK_MASS_EV,
        KineticMixingFinalStates::EE => 2 * ELECTRON_MASS_EV,
        KineticMixingFinalStates::MuMu => 2 * MUON_MASS_EV,
        KineticMixingFinalStates::TauTau => 2 * TAU_MASS_EV,
        KineticMixingFinalStates::NueNue => 0,
        KineticMixingFinalStates::NumuNumu => 0,
        KineticMixingFinalStates::NutauNutau => 0,
        KineticMixingFinalStates::HiggsZ => HIGGS_MASS_EV + Z_BOSON_MASS_EV,
    }
}

/// Whether the channel is kinematically open for a mediator of mass `mv`,
/// given a dark-matter mass `mx` (which only the dark-matter-pair channel
/// reads).
pub open spec fn spec_decay_channel_open(
    fs: KineticMixingFinalStates,
    mx: u64,
    mv: u64,
) -> bool {
    mv > spec_decay_threshold_ev(fs, mx)
}

impl KineticMixing {
    /// Decides whether the mediator can decay into the given final state:
    /// true exactly when the mediator mass lies above the channel's
    /// kinematic threshold. A closed channel contributes exactly zero to
    /// the total width.
    pub fn decay_channel_open(&self, fs: KineticMixingFinalStates) -> (r: bool)
        ensures
            r == spec_decay_channel_open(fs, self.mx, self.mv),
    {
        match fs {
            KineticMixingFinalStates::All => self.mv > 0,
            KineticMixingFinalStates::XX => {
                self.mx <= u64::MAX / 2 && self.mv > 2 * self.mx
            }
            KineticMixingFinalStates::UU => self.mv > 2 * UP_QUARK_MASS_EV,
            KineticMixingFinalStates::CC => self.mv > 2 * CHARM_QUARK_MASS_EV,
            KineticMixingFinalStates::TT => self.mv > 2 * TOP_QUARK_MASS_EV,
            KineticMixingFinalStates::DD => self.mv > 2 * DOWN_QUARK_MASS_EV,
            KineticMixingFinalStates::SS => self.mv > 2 * STRANGE_QUARK_MASS_EV,
            KineticMixingFinalStates::BB => self.mv > 2 * BOTTOM_QUARK_MASS_EV,
            KineticMixingFinalStates::EE => self.mv > 2 * ELECTRON_MASS_EV,
            KineticMixingFinalStates::MuMu => self.mv > 2 * MUON_MASS_EV,
            KineticMixingFinalStates::TauTau => self.mv > 2 * TAU_MASS_EV,
            KineticMixingFinalStates::NueNue => self.mv > 0,
            KineticMixingFinalStates::NumuNumu => self.mv > 0,
            KineticMixingFinalStates::NutauNutau => self.mv > 0,
            KineticMixingFinalStates::HiggsZ => {
                self.mv > HIGGS_MASS_EV + Z_BOSON_MASS_EV
            }
        }
    }

    /// The concrete final states the mediator can decay into, each exactly
    /// once, in the order the total width sums them. The total decay width
    /// is the sum of the partial widths over exactly these channels: every
    /// other channel of the closed set is kinematically closed and
    /// contributes exactly zero.
    pub fn open_decay_channels(&self) -> (r: Vec<KineticMixingFinalStates>)
        ensures
            forall|fs: KineticMixingFinalStates| #[trigger] r@.contains(fs) <==> (fs
                != KineticMixingFinalStates::All && spec_decay_channel_open(fs, self.mx, self.mv)),
            forall|i: int, j: int| 0 <= i < j < r@.len() ==> r@[i] != r@[j],
    {
        let states = crate::channels::all_final_states();
        let ghost l = crate::channels::spec_final_state_list();
        proof {
            crate::channels::lemma_final_states_complete();
        }
        let mut r: Vec<KineticMixingFinalStates> = Vec::new();
        let mut idx: usize = 0;
        while idx < states.len()
            invariant
                states@ == l,
                l == crate::channels::spec_final_state_list(),
                idx <= l.len(),
                forall|fs: KineticMixingFinalStates| #[trigger] r@.contains(fs) <==> (l.take(
                    idx as int,
                ).contains(fs) && spec_decay_channel_open(fs, self.mx, self.mv)),
                forall|i: int, j: int| 0 <= i < j < r@.len() ==> r@[i] != r@[j],
            decreases l.len() - idx,
        {
            let fs = states[idx];
            let ghost r0 = r@;
            proof {
                crate::channels::lemma_final_states_complete();
                assert(!l.take(idx as int).contains(fs)) by {
                    if l.take(idx as int).contains(fs) {
                        let k = choose|k: int| 0 <= k < idx && #[trigger] l.take(idx as int)[k] == fs;
                        assert(l[k] == fs && l[idx as int] == fs);
                    }
                }
            }
            if self.decay_channel_open(fs) {
                r.push(fs);
                proof {
                    assert forall|g: KineticMixingFinalStates| #[trigger] r@.contains(g) implies (
                    l.take(idx as int + 1).contains(g) && spec_decay_channel_open(
                        g,
                        self.mx,
                        self.mv,
                    )) by {
                        if r0.contains(g) {
                            let k = choose|k: int|
                                0 <= k < idx && l.take(idx as int)[k] == g;
                            assert(l.take(idx as int + 1)[k] == g);
                        } else {
                            assert(g == fs && l.take(idx as int + 1)[idx as int] == fs);
                        }
                    }
                    assert forall|g: KineticMixingFinalStates|
                        l.take(idx as int + 1).contains(g) && spec_decay_channel_open(
                            g,
                            self.mx,
                            self.mv,
                        ) implies #[trigger] r@.contains(g) by {
                        let k = choose|k: int| 0 <= k <= idx && #[trigger] l.take(idx as int + 1)[k] == g;
                        if k < idx {
                            assert(l.take(idx as int)[k] == g);
                            assert(r0.contains(g));
                            assert(r@[choose|m: int| 0 <= m < r0.len() && #[trigger] r0[m] == g] == g);
                        } else {
                            assert(g == fs);
                            assert(r@[r0.len() as int] == fs);
                        }
                    }
                    assert forall|i: int, j: int| 0 <= i < j < r@.len() implies r@[i] != r@[j] by {
                        if j == r@.len() - 1 && r@[i] == fs {
                            assert(r0[i] == fs);
                            assert(r0.contains(fs));
                        }
                    }
                }
            } else {
                proof {
                    assert forall|g: KineticMixingFinalStates| #[trigger] r@.contains(g) implies
                    l.take(idx as int + 1).contains(g) by {
                        let k = choose|k: int| 0 <= k < idx && #[trigger] l.take(idx as int)[k] == g;
                        assert(l.take(idx as int + 1)[k] == g);
                    }
                    assert forall|g: KineticMixingFinalStates|
                        l.take(idx as int + 1).contains(g) && spec_decay_channel_open(
                            g,
                            self.mx,
                            self.mv,
                        ) implies #[trigger] r@.contains(g) by {
                        let k = choose|k: int| 0 <= k <= idx && #[trigger] l.take(idx as int + 1)[k] == g;
                        if k < idx {
                            assert(l.take(idx as int)[k] == g);
                        } else {
                            assert(g == fs);
                        }
                    }
                }
            }
            idx += 1;
        }
        proof {
            assert(l.take(l.len() as int) =~= l);
            crate::channels::lemma_final_states_complete();
        }
        r
    }
}

} // verus!
