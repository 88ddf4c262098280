//! The text of a quantity: its magnitude, a space, and its unit's suffix.

use vstd::prelude::*;
use vstd::string::StringExecFns;

verus! {

/// The magnitude's text, one space, then the suffix (`"1024"` and `"bytes"` give
/// `"1024 bytes"`).
pub fn quantity_text(magnitude: &str, suffix: &str) -> (r: String)
    ensures
        r@ == magnitude@ + " "@ + suffix@,
{
    String::from_str(magnitude).concat(" ").concat(suffix)
}

} // verus!
