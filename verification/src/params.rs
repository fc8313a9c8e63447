//! Validated model parameters.

use vstd::prelude::*;

verus! {

/// Why a set of model parameters was rejected at construction.
#[derive(Clone, Copy, Debug, PartialEq, Eq, Structural)]
pub enum ModelError {
    /// The dark-matter mass is not positive.
    NonPositiveDarkMatterMass,
    /// The mediator mass is not positive.
    NonPositiveMediatorMass,
}

/// The parameters of the kinetic-mixing model: dark-matter mass `mx` and
/// mediator mass `mv` in electronvolts, dark coupling `gvxx` and mixing
/// parameter `eps` in billionths.
///
/// A value of this type built by [`KineticMixing::new`] always has positive
/// masses; every kinematic decision of the model is a function of these
/// fields alone.
#[derive(Clone, Copy, Debug, PartialEq, Eq, Structural)]
pub struct KineticMixing {
    /// Dark-matter mass, in electronvolts.
    pub mx: u64,
    /// Mediator mass, in electronvolts.
    pub mv: u64,
    /// Coupling of the mediator to the dark matter, in billionths.
    pub gvxx: i64,
    /// Kinetic-mixing parameter, in billionths.
    pub eps: i64,
}

impl KineticMixing {
    /// Both masses are positive.
    pub open spec fn wf(&self) -> bool {
        self.mx > 0 && self.mv > 0
    }

    /// What construction returns, as a function of the arguments alone.
    pub open spec fn spec_new(mx: u64, mv: u64, gvxx: i64, eps: i64) -> Result<
        KineticMixing,
        ModelError,
    > {
        if mx == 0 {
            Err(ModelError::NonPositiveDarkMatterMass)
        } else if mv == 0 {
            Err(ModelError::NonPositiveMediatorMass)
        } else {
            Ok(KineticMixing { mx, mv, gvxx, eps })
        }
    }

    /// Validates the parameters: construction succeeds exactly when both
    /// masses are positive, and the resulting value carries the arguments
    /// unchanged. The couplings may take any representable value; only
    /// their squares enter the model.
    pub fn new(mx: u64, mv: u64, gvxx: i64, eps: i64) -> (r: Result<KineticMixing, ModelError>)
        ensures
            r == Self::spec_new(mx, mv, gvxx, eps),
            r is Ok <==> (mx > 0 && mv > 0),
            r matches Ok(k) ==> k.wf() && k.mx == mx && k.mv == mv && k.gvxx == gvxx && k.eps
                == eps,
    {
        if mx == 0 {
            Err(ModelError::NonPositiveDarkMatterMass)
        } else if mv == 0 {
            Err(ModelError::NonPositiveMediatorMass)
        } else {
            Ok(KineticMixing { mx, mv, gvxx, eps })
        }
    }
}

/// Construction is deterministic: two results obtained from the same
/// arguments are equal, bit for bit. There is no hidden state; everything
/// the model later computes is a function of the constructed value.
pub proof fn lemma_construction_deterministic(
    mx: u64,
    mv: u64,
    gvxx: i64,
    eps: i64,
    r1: Result<KineticMixing, ModelError>,
    r2: Result<KineticMixing, ModelError>,
)
    requires
        r1 == KineticMixing::spec_new(mx, mv, gvxx, eps),
        r2 == KineticMixing::spec_new(mx, mv, gvxx, eps),
    ensures
        r1 == r2,
{
}

} // verus!
