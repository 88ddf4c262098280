//! Units of area. They are declared for completeness; no conversion is defined on them.

use vstd::prelude::*;

verus! {

/// The units of area.
#[derive(Clone, Copy, Debug, PartialEq, Eq, Structural)]
pub enum AreaUnit {
    SqMillimeters,
    SqMeters,
    SqKilometers,
    SqFeet,
}

} // verus!
