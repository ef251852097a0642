//! Dimensional value system and capacity-check engine for steel brace
//! connections.
//!
//! Physical quantities (length, area, force, stress) carry exact rational
//! magnitudes normalized to a canonical base unit, so that unit conversion
//! and the capacity checks built on top of them are exact arithmetic with
//! proved contracts.

pub mod bolt;
pub mod error;
pub mod gusset_plate;
pub mod material;
pub mod model;
pub mod rational;
pub mod results;
pub mod section;
pub mod text;
pub mod unit;
pub mod value;
pub mod welding;
