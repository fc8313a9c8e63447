//! The quadrature plan of the thermal average.
//!
//! The thermally averaged cross section integrates the cross section,
//! weighted by the thermal kernel, over the dimensionless collision energy
//! `z = cme / mx` from `2` to infinity. The integrand can be sharply peaked
//! where `mx * z` crosses the mediator resonance (`z = mv / mx`) or the
//! mediator-pair threshold (`z = 2 * mv / mx`); whenever such a point lies
//! inside `(2, infinity)` it must be handed to the adaptive quadrature as
//! an explicit breakpoint, or the subdivision can miss the peak. This
//! module decides, exactly, which breakpoints the quadrature gets.

use vstd::prelude::*;
use crate::params::KineticMixing;

verus! {

/// The reciprocal of the relative tolerance the thermal-average quadrature
/// is run with (the tolerance is one part in this many).
pub const QUADRATURE_EPS_REL_RECIP: u64 = 100_000_000;

/// The absolute tolerance of the thermal-average quadrature, which is
/// exactly zero: only the relative tolerance governs convergence.
pub const QUADRATURE_EPS_ABS_NUM: u64 = 0;

/// The cap on the number of subdivisions of the adaptive quadrature.
/// Exceeding it without meeting the tolerance is a numerical failure that
/// must be surfaced, never returned as the unconverged estimate.
pub const QUADRATURE_SUBDIVISION_LIMIT: u64 = 1000;

/// The lower end of the thermal-average integral in `z = cme / mx`: the
/// dark-matter pair threshold.
pub const THERMAL_INTEGRAL_LOWER_Z: u64 = 2;

/// A dimensionless collision energy `z = num / den`, held exactly as a
/// ratio of two energies in electronvolts.
#[derive(Clone, Copy, Debug, PartialEq, Eq, Structural)]
pub struct SingularPoint {
    /// Numerator, in electronvolts.
    pub num: u64,
    /// Denominator (the dark-matter mass), in electronvolts.
    pub den: u64,
}

/// The breakpoints of the thermal-average integrand, in increasing order:
/// the mediator resonance `mv / mx` when it lies above the lower end of the
/// integral (`mv > 2 * mx`), then the mediator-pair threshold `2 * mv / mx`
/// when it does (`mv > mx`). The resonance lying inside the interval forces
/// the threshold inside too, so the plan is empty, the threshold alone, or
/// both points.
pub open spec fn spec_singular_points(mx: u64, mv: u64) -> Seq<SingularPoint> {
    if mv > 2 * mx {
        seq![
            SingularPoint { num: mv, den: mx },
            SingularPoint { num: (2 * mv) as u64, den: mx },
        ]
    } else if mv > mx {
        seq![SingularPoint { num: (2 * mv) as u64, den: mx }]
    } else {
        Seq::empty()
    }
}

impl KineticMixing {
    /// The breakpoints that the thermal-average quadrature must be given,
    /// in increasing order. A point appears exactly when it lies inside
    /// the integration interval `(2, infinity)` in `z = cme / mx`.
    ///
    /// The mediator mass must leave `2 * mv` representable in an
    /// electronvolt-denominated 64-bit integer.
    pub fn singular_points(&self) -> (r: Vec<SingularPoint>)
        requires
            self.wf(),
            self.mv <= u64::MAX / 2,
        ensures
            r@ == spec_singular_points(self.mx, self.mv),
            forall|i: int| 0 <= i < r@.len() ==> (#[trigger] r@[i]).den == self.mx,
            forall|i: int| 0 <= i < r@.len() ==> (#[trigger] r@[i]).num > 2 * r@[i].den,
            forall|i: int, j: int| 0 <= i < j < r@.len() ==> r@[i].num < r@[j].num,
    {
        let mut v: Vec<SingularPoint> = Vec::new();
        if self.mx <= u64::MAX / 2 && self.mv > 2 * self.mx {
            v.push(SingularPoint { num: self.mv, den: self.mx });
            v.push(SingularPoint { num: 2 * self.mv, den: self.mx });
            proof {
                assert(v@ =~= spec_singular_points(self.mx, self.mv));
            }
        } else if self.mv > self.mx {
            v.push(SingularPoint { num: 2 * self.mv, den: self.mx });
            proof {
                assert(v@ =~= spec_singular_points(self.mx, self.mv));
            }
        } else {
            proof {
                assert(v@ =~= spec_singular_points(self.mx, self.mv));
            }
        }
        v
    }
}

/// The resonance law: the breakpoint plan contains the mediator resonance
/// `mv / mx` exactly when that point lies inside the integration interval,
/// `mv > 2 * mx`; and it contains the mediator-pair threshold `2 * mv / mx`
/// exactly when `mv > mx`.
pub proof fn lemma_resonance_breakpoint(mx: u64, mv: u64)
    requires
        mx >= 1,
        mv >= 1,
        mv <= u64::MAX / 2,
    ensures
        spec_singular_points(mx, mv).contains(SingularPoint { num: mv, den: mx }) <==> mv > 2
            * mx,
        spec_singular_points(mx, mv).contains(
            SingularPoint { num: (2 * mv) as u64, den: mx },
        ) <==> mv > mx,
{
    let res = SingularPoint { num: mv, den: mx };
    let thr = SingularPoint { num: (2 * mv) as u64, den: mx };
    let pts = spec_singular_points(mx, mv);
    if mv > 2 * mx {
        assert(pts[0] == res);
        assert(pts[1] == thr);
    } else if mv > mx {
        assert(pts[0] == thr);
        assert(forall|i: int| 0 <= i < pts.len() ==> pts[i] != res);
    } else {
        assert(pts.len() == 0);
    }
}

} // verus!
