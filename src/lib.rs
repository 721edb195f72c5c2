//! Buoyancy and submersion damping for spherical floats.
//!
//! All quantities are exact integers. Lengths are counted in a fixed length
//! unit that the caller chooses (the host simulation, for example, uses
//! millimetres). Areas are counted in multiples of `π` square units and
//! volumes in multiples of `π / 3` cubic units, so that no rounding happens
//! anywhere in the model. Forces and damping coefficients are returned as
//! exact numerators over the fixed denominators documented next to the
//! physical constants in [`dynamics`].
pub mod geometry;
pub mod dynamics;
pub mod update;
