//! Units of data size. The base unit is the byte; decimal units go by powers of 1000, binary
//! ones by powers of 1024.

use vstd::prelude::*;
use crate::label::quantity_text;
use crate::scale::{Fraction, Ratio, SumPlan, to_base_magnitude, convert_magnitude};
use crate::scale::{lemma_back_from_base, lemma_convert_through_base, lemma_identity_keeps};
use crate::scale::{lemma_quotient_converts, lemma_sum_in_left_unit, lemma_to_base_valid};

verus! {

/// Bytes in a kilobyte.
pub const BYTES_PER_KB: u64 = 1000;

/// Bytes in a megabyte.
pub const BYTES_PER_MB: u64 = 1000 * 1000;

/// Bytes in a gigabyte.
pub const BYTES_PER_GB: u64 = 1000 * 1000 * 1000;

/// Bytes in a terabyte.
pub const BYTES_PER_TB: u64 = 1000 * 1000 * 1000 * 1000;

/// Bytes in a kibibyte.
pub const BYTES_PER_KIB: u64 = 1024;

/// Bytes in a mebibyte.
pub const BYTES_PER_MIB: u64 = 1024 * 1024;

/// Bytes in a gibibyte.
pub const BYTES_PER_GIB: u64 = 1024 * 1024 * 1024;

/// Bytes in a tebibyte.
pub const BYTES_PER_TIB: u64 = 1024 * 1024 * 1024 * 1024;

/// The units of data size. Each short name (`KB`, `MiB`, ...) is an alias that stands for the
/// same unit as the long name before it.
#[derive(Clone, Copy, Debug, PartialEq, Eq, Structural)]
pub enum DataUnit {
    Bytes,
    Kilobytes,
    KB,
    Megabytes,
    MB,
    Gigabytes,
    GB,
    Terabytes,
    TB,
    Kibibytes,
    KiB,
    Mebibytes,
    MiB,
    Gibibytes,
    GiB,
    Tebibytes,
    TiB,
}

impl DataUnit {
    /// The unit that an alias stands for; a long name stands for itself.
    pub open spec fn spec_canonical(self) -> DataUnit {
        match self {
            DataUnit::KB => DataUnit::Kilobytes,
            DataUnit::MB => DataUnit::Megabytes,
            DataUnit::GB => DataUnit::Gigabytes,
            DataUnit::TB => DataUnit::Terabytes,
            DataUnit::KiB => DataUnit::Kibibytes,
            DataUnit::MiB => DataUnit::Mebibytes,
            DataUnit::GiB => DataUnit::Gibibytes,
            DataUnit::TiB => DataUnit::Tebibytes,
            _ => self,
        }
    }

    /// Bytes in one of this unit.
    pub open spec fn spec_bytes(self) -> u64 {
        match self.spec_canonical() {
            DataUnit::Kilobytes => BYTES_PER_KB,
            DataUnit::Megabytes => BYTES_PER_MB,
            DataUnit::Gigabytes => BYTES_PER_GB,
            DataUnit::Terabytes => BYTES_PER_TB,
            DataUnit::Kibibytes => BYTES_PER_KIB,
            DataUnit::Mebibytes => BYTES_PER_MIB,
            DataUnit::Gibibytes => BYTES_PER_GIB,
            DataUnit::Tebibytes => BYTES_PER_TIB,
            _ => 1,
        }
    }

    /// Bytes in one of this unit, as a scale factor.
    pub open spec fn spec_scale(self) -> Ratio {
        Ratio { num: self.spec_bytes(), den: 1 }
    }

    /// The unit is the byte or one of the decimal units (powers of 1000).
    pub open spec fn is_decimal(self) -> bool {
        match self.spec_canonical() {
            DataUnit::Bytes | DataUnit::Kilobytes | DataUnit::Megabytes | DataUnit::Gigabytes
            | DataUnit::Terabytes => true,
            _ => false,
        }
    }

    /// The text that follows a magnitude of this unit.
    pub open spec fn spec_suffix(self) -> Seq<char> {
        match self.spec_canonical() {
            DataUnit::Kilobytes => "KB"@,
            DataUnit::Megabytes => "MB"@,
            DataUnit::Gigabytes => "GB"@,
            DataUnit::Terabytes => "TB"@,
            DataUnit::Kibibytes => "KiB"@,
            DataUnit::Mebibytes => "MiB"@,
            DataUnit::Gibibytes => "GiB"@,
            DataUnit::Tebibytes => "TiB"@,
            _ => "bytes"@,
        }
    }

    /// A magnitude `x` of this unit, in bytes.
    pub open spec fn spec_to_base(self, x: Fraction) -> Fraction {
        to_base_magnitude(x, self.spec_scale())
    }

    /// A magnitude `x` of this unit, in `target`, by way of bytes.
    pub open spec fn spec_convert(self, x: Fraction, target: DataUnit) -> Fraction {
        convert_magnitude(x, self.spec_scale(), target.spec_scale())
    }

    /// The base unit of data size.
    pub fn base() -> (r: DataUnit)
        ensures
            r == DataUnit::Bytes,
            r.spec_scale().is_identity(),
    {
        DataUnit::Bytes
    }

    /// The unit that this name stands for: aliases map to the long name of their unit.
    pub fn canonical(self) -> (r: DataUnit)
        ensures
            r == self.spec_canonical(),
            r.spec_canonical() == r,
            r.spec_scale() == self.spec_scale(),
            r.spec_suffix() == self.spec_suffix(),
    {
        match self {
            DataUnit::Bytes => DataUnit::Bytes,
            DataUnit::Kilobytes | DataUnit::KB => DataUnit::Kilobytes,
            DataUnit::Megabytes | DataUnit::MB => DataUnit::Megabytes,
            DataUnit::Gigabytes | DataUnit::GB => DataUnit::Gigabytes,
            DataUnit::Terabytes | DataUnit::TB => DataUnit::Terabytes,
            DataUnit::Kibibytes | DataUnit::KiB => DataUnit::Kibibytes,
            DataUnit::Mebibytes | DataUnit::MiB => DataUnit::Mebibytes,
            DataUnit::Gibibytes | DataUnit::GiB => DataUnit::Gibibytes,
            DataUnit::Tebibytes | DataUnit::TiB => DataUnit::Tebibytes,
        }
    }

    /// Whether this is the base unit, bytes.
    pub fn is_base(self) -> (r: bool)
        ensures
            r == (self == DataUnit::Bytes),
    {
        matches!(self, DataUnit::Bytes)
    }

    /// Bytes in one of this unit, exactly.
    pub fn scale(self) -> (r: Ratio)
        ensures
            r == self.spec_scale(),
            r.wf(),
            r.num <= BYTES_PER_TIB,
    {
        let bytes: u64 = match self.canonical() {
            DataUnit::Kilobytes => BYTES_PER_KB,
            DataUnit::Megabytes => BYTES_PER_MB,
            DataUnit::Gigabytes => BYTES_PER_GB,
            DataUnit::Terabytes => BYTES_PER_TB,
            DataUnit::Kibibytes => BYTES_PER_KIB,
            DataUnit::Mebibytes => BYTES_PER_MIB,
            DataUnit::Gibibytes => BYTES_PER_GIB,
            DataUnit::Tebibytes => BYTES_PER_TIB,
            _ => 1,
        };
        Ratio { num: bytes, den: 1 }
    }

    /// The factor that re-expresses a magnitude of this unit in `target`: bytes per this unit
    /// over bytes per `target`, unreduced.
    pub fn ratio_to(self, target: DataUnit) -> (r: Ratio)
        ensures
            r.num == self.spec_bytes(),
            r.den == target.spec_bytes(),
            r.wf(),
            forall|x: Fraction| x.valid() ==> #[trigger] x.mul(r@).eqv(self.spec_convert(x, target)),
    {
        let a = self.scale();
        let b = target.scale();
        proof {
            assert forall|x: Fraction| x.valid() implies #[trigger] x.mul(a@.div(b@)).eqv(
                self.spec_convert(x, target),
            ) by {
                lemma_quotient_converts(x, a, b);
            }
        }
        Ratio::between(a, b)
    }

    /// How a data size of `other` is added to or subtracted from one of this unit: the result is
    /// in this unit, whatever `other` is, and the right operand is first converted into it.
    pub fn combine(self, other: DataUnit) -> (r: SumPlan<DataUnit>)
        ensures
            r.unit == self.spec_canonical(),
            r.factor.num == other.spec_bytes(),
            r.factor.den == self.spec_bytes(),
            r.factor@ == other.spec_scale()@.div(self.spec_scale()@),
            r.factor.wf(),
    {
        SumPlan { unit: self.canonical(), factor: other.ratio_to(self) }
    }

    /// The text that follows a magnitude of this unit: `bytes`, `KB`, `MB`, `GB`, `TB`, `KiB`,
    /// `MiB`, `GiB` or `TiB`.
    pub fn suffix(self) -> (r: &'static str)
        ensures
            r@ == self.spec_suffix(),
    {
        match self.canonical() {
            DataUnit::Kilobytes => "KB",
            DataUnit::Megabytes => "MB",
            DataUnit::Gigabytes => "GB",
            DataUnit::Terabytes => "TB",
            DataUnit::Kibibytes => "KiB",
            DataUnit::Mebibytes => "MiB",
            DataUnit::Gibibytes => "GiB",
            DataUnit::Tebibytes => "TiB",
            _ => "bytes",
        }
    }

    /// A magnitude's text followed by a space and this unit's suffix (`"1024"` in bytes gives
    /// `"1024 bytes"`).
    pub fn render(self, magnitude: &str) -> (r: String)
        ensures
            r@ == magnitude@ + " "@ + self.spec_suffix(),
    {
        quantity_text(magnitude, self.suffix())
    }
}

/// Converting a data size to bytes and then to `target` gives what converting it to `target`
/// directly gives; and converting it to bytes and back to its own unit gives its magnitude back.
pub proof fn lemma_data_round_trip(unit: DataUnit, target: DataUnit, x: Fraction)
    requires
        x.valid(),
    ensures
        DataUnit::Bytes.spec_convert(unit.spec_to_base(x), target).eqv(
            unit.spec_convert(x, target),
        ),
        DataUnit::Bytes.spec_convert(unit.spec_to_base(x), unit).eqv(x),
{
    lemma_convert_through_base(x, unit.spec_scale(), DataUnit::Bytes.spec_scale(), target.spec_scale());
    lemma_back_from_base(x, unit.spec_scale(), DataUnit::Bytes.spec_scale());
}

/// A data size already in bytes stays as it is when taken to bytes again.
pub proof fn lemma_data_base_idempotent(unit: DataUnit, x: Fraction)
    requires
        x.valid(),
    ensures
        DataUnit::Bytes.spec_to_base(unit.spec_to_base(x)).eqv(unit.spec_to_base(x)),
{
    lemma_to_base_valid(x, unit.spec_scale());
    lemma_identity_keeps(unit.spec_to_base(x), DataUnit::Bytes.spec_scale());
}

/// Adding a data size `y` of unit `right` to a data size `x` of unit `left` gives, in the left
/// unit, a size whose measure in bytes is the sum of the two; subtracting gives the difference.
pub proof fn lemma_data_sum(left: DataUnit, right: DataUnit, x: Fraction, y: Fraction)
    requires
        x.valid(),
        y.valid(),
    ensures
        left.spec_to_base(x.add(y.mul(right.spec_scale()@.div(left.spec_scale()@)))).eqv(
            left.spec_to_base(x).add(right.spec_to_base(y)),
        ),
        left.spec_to_base(x.sub(y.mul(right.spec_scale()@.div(left.spec_scale()@)))).eqv(
            left.spec_to_base(x).sub(right.spec_to_base(y)),
        ),
{
    lemma_sum_in_left_unit(x, y, left.spec_scale(), right.spec_scale());
}

} // verus!
