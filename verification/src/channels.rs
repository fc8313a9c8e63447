//! The closed set of final states of the kinetically mixed mediator.

use vstd::prelude::*;

verus! {

/// A final state of the mediator, used to select a partial decay width,
/// plus the aggregate `All` that stands for the sum over every channel.
///
/// The set is closed: three up-type quark pairs, three down-type quark
/// pairs, three charged-lepton pairs, three neutrino pairs (one per
/// flavor), the Higgs-plus-Z pair, and the dark-matter pair.
#[derive(Clone, Copy, Debug, PartialEq, Eq, Structural)]
pub enum KineticMixingFinalStates {
    All,
    XX,
    UU,
    CC,
    TT,
    DD,
    SS,
    BB,
    EE,
    MuMu,
    TauTau,
    NueNue,
    NumuNumu,
    NutauNutau,
    HiggsZ,
}

/// The concrete final states, in the order in which the total decay width
/// sums them; the aggregate `All` is not a summand and is absent.
pub open spec fn spec_final_state_list() -> Seq<KineticMixingFinalStates> {
    seq![
        KineticMixingFinalStates::UU,
        KineticMixingFinalStates::CC,
        KineticMixingFinalStates::TT,
        KineticMixingFinalStates::DD,
        KineticMixingFinalStates::SS,
        KineticMixingFinalStates::BB,
        KineticMixingFinalStates::EE,
        KineticMixingFinalStates::MuMu,
        KineticMixingFinalStates::TauTau,
        KineticMixingFinalStates::NueNue,
        KineticMixingFinalStates::NumuNumu,
        KineticMixingFinalStates::NutauNutau,
        KineticMixingFinalStates::HiggsZ,
        KineticMixingFinalStates::XX,
    ]
}

/// The concrete final states as a vector, in summation order.
pub fn all_final_states() -> (r: Vec<KineticMixingFinalStates>)
    ensures
        r@ == spec_final_state_list(),
{
    let mut v: Vec<KineticMixingFinalStates> = Vec::new();
    v.push(KineticMixingFinalStates::UU);
    v.push(KineticMixingFinalStates::CC);
    v.push(KineticMixingFinalStates::TT);
    v.push(KineticMixingFinalStates::DD);
    v.push(KineticMixingFinalStates::SS);
    v.push(KineticMixingFinalStates::BB);
    v.push(KineticMixingFinalStates::EE);
    v.push(KineticMixingFinalStates::MuMu);
    v.push(KineticMixingFinalStates::TauTau);
    v.push(KineticMixingFinalStates::NueNue);
    v.push(KineticMixingFinalStates::NumuNumu);
    v.push(KineticMixingFinalStates::NutauNutau);
    v.push(KineticMixingFinalStates::HiggsZ);
    v.push(KineticMixingFinalStates::XX);
    proof {
        assert(v@ =~= spec_final_state_list());
    }
    v
}

/// The channel list is exactly the closed set: every concrete final state
/// appears in it, the aggregate `All` does not, and no state appears twice.
/// Summing a per-channel quantity over the list therefore covers each
/// channel of the closed set exactly once, which is what makes the total
/// decay width equal the sum of the partial widths over the set.
pub proof fn lemma_final_states_complete()
    ensures
        spec_final_state_list().len() == 14,
        forall|fs: KineticMixingFinalStates|
            fs != KineticMixingFinalStates::All ==> spec_final_state_list().contains(fs),
        !spec_final_state_list().contains(KineticMixingFinalStates::All),
        forall|i: int, j: int|
            0 <= i < j < spec_final_state_list().len()
                ==> spec_final_state_list()[i] != spec_final_state_list()[j],
{
    let l = spec_final_state_list();
    assert forall|fs: KineticMixingFinalStates|
        fs != KineticMixingFinalStates::All implies l.contains(fs) by {
        match fs {
            KineticMixingFinalStates::All => {}
            KineticMixingFinalStates::UU => assert(l[0] == fs),
            KineticMixingFinalStates::CC => assert(l[1] == fs),
            KineticMixingFinalStates::TT => assert(l[2] == fs),
            KineticMixingFinalStates::DD => assert(l[3] == fs),
            KineticMixingFinalStates::SS => assert(l[4] == fs),
            KineticMixingFinalStates::BB => assert(l[5] == fs),
            KineticMixingFinalStates::EE => assert(l[6] == fs),
            KineticMixingFinalStates::MuMu => assert(l[7] == fs),
            KineticMixingFinalStates::TauTau => assert(l[8] == fs),
            KineticMixingFinalStates::NueNue => assert(l[9] == fs),
            KineticMixingFinalStates::NumuNumu => assert(l[10] == fs),
            KineticMixingFinalStates::NutauNutau => assert(l[11] == fs),
            KineticMixingFinalStates::HiggsZ => assert(l[12] == fs),
            KineticMixingFinalStates::XX => assert(l[13] == fs),
        }
    }
    assert(!l.contains(KineticMixingFinalStates::All)) by {
        assert forall|i: int| 0 <= i < l.len()
            implies l[i] != KineticMixingFinalStates::All by {}
    }
}

} // verus!
