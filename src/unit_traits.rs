//! The capability that every dimension's quantity type offers.

use vstd::prelude::*;

verus! {

/// Conversion between the units of one dimension.
pub trait UnitConversion: Sized {
    /// The units that a quantity of this dimension can be expressed in.
    type Units;

    /// The same quantity in the dimension's base unit.
    fn to_base(&self) -> Self;

    /// The same quantity in `unit`.
    fn to(&self, unit: Self::Units) -> Self;
}

} // verus!
