//! Compass headings for small displays and indicator rings.
//!
//! Angles are whole degrees. `angle` reduces any angle to one turn,
//! `direction` names the sixteen compass sectors and finds the one an angle
//! falls in, `trig` holds fixed-point sines and cosines of whole degrees, and
//! `needle` places the three corners of a gauge needle and its hub on a pixel
//! grid.

pub mod angle;
pub mod direction;
pub mod trig;
pub mod needle;
