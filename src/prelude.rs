//! The conversion trait and every unit name, for a single `use`.

pub use crate::unit_traits::UnitConversion;
pub use crate::unit;
