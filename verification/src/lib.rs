//! Kinematic and structural core of a dark-matter relic-abundance model
//! with a massive kinetically mixed mediator.
//!
//! Every quantity here is held as a plain integer in a fixed unit (masses
//! and collision energies in electronvolts, logarithms in millionths), so
//! that the decisions the model rests on — which annihilation and decay
//! channels are kinematically open, where the thermal-average integrand is
//! singular, and whether an abundance trace is well formed — are stated and
//! proved exactly.

pub mod boltzmann;
pub mod channels;
pub mod constants;
pub mod cross_sections;
pub mod params;
pub mod thermal;
pub mod widths;
