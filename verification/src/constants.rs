//! Standard Model particle masses, in electronvolts.
//!
//! Every mass and collision energy in this crate is an integer number of
//! electronvolts, so kinematic comparisons (`above threshold`, `below
//! threshold`) are exact. One electronvolt is far below any physically
//! meaningful resolution of these thresholds.

use vstd::prelude::*;

verus! {

/// Up quark mass.
pub const UP_QUARK_MASS_EV: u64 = 2_160_000;

/// Charm quark mass.
pub const CHARM_QUARK_MASS_EV: u64 = 1_270_000_000;

/// Top quark mass.
pub const TOP_QUARK_MASS_EV: u64 = 172_900_000_000;

/// Down quark mass.
pub const DOWN_QUARK_MASS_EV: u64 = 4_670_000;

/// Strange quark mass.
pub const STRANGE_QUARK_MASS_EV: u64 = 93_400_000;

/// Bottom quark mass.
pub const BOTTOM_QUARK_MASS_EV: u64 = 4_180_000_000;

/// Electron mass.
pub const ELECTRON_MASS_EV: u64 = 510_999;

/// Muon mass.
pub const MUON_MASS_EV: u64 = 105_658_375;

/// Tau mass.
pub const TAU_MASS_EV: u64 = 1_776_860_000;

/// Higgs boson mass.
pub const HIGGS_MASS_EV: u64 = 125_100_000_000;

/// Z boson mass.
pub const Z_BOSON_MASS_EV: u64 = 91_187_600_000;

/// W boson mass.
pub const W_BOSON_MASS_EV: u64 = 80_379_000_000;

} // verus!
