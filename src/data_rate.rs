//! Units of data rate. The base unit is the bit per second, while the base unit of data size is
//! the byte: eight bits make a byte where the two dimensions meet.

use vstd::prelude::*;
use crate::data::DataUnit;
use crate::label::quantity_text;
use crate::scale::{Fraction, Ratio, to_base_magnitude, convert_magnitude};
use crate::scale::{lemma_back_from_base, lemma_convert_through_base, lemma_identity_keeps};
use crate::scale::{lemma_quotient_converts, lemma_to_base_valid};

verus! {

/// The units of data rate, in bits (`b`) or bytes (`B`) per second.
#[allow(non_camel_case_types)]
#[derive(Clone, Copy, Debug, PartialEq, Eq, Structural)]
pub enum DataRateUnit {
    bps,
    Kbps,
    KBps,
    Kibps,
    KiBps,
    Mbps,
    MBps,
    Mibps,
    MiBps,
    Gbps,
    GBps,
    Gibps,
    GiBps,
    Tbps,
    TBps,
    Tibps,
    TiBps,
}

/// The unit of rate that a data size over a time is given in, and the number that multiplies the
/// size's magnitude before it is divided by the time in seconds.
#[derive(Clone, Copy, Debug, PartialEq, Eq, Structural)]
pub struct RatePlan {
    pub unit: DataRateUnit,
    pub multiplier: u64,
}

impl DataRateUnit {
    /// Bits per second in one of this unit. The decimal units go by powers of 1000 and a byte is
    /// eight bits. Each `i` unit is 1024 of a decimal unit: `Kibps` is 1024 `Kbps`, `Mibps` 1024
    /// `Mbps`, `Gibps` 1024 `Gbps` and `Tibps` 1024 `Tbps`, while `KiBps` is 1024 bytes per
    /// second, `MiBps` 1024 `KBps`, `GiBps` 1024 `MBps` and `TiBps` 1024 `GBps`.
    pub open spec fn spec_bits(self) -> u64 {
        match self {
            DataRateUnit::bps => 1,
            DataRateUnit::Kbps => 1000,
            DataRateUnit::KBps => 8000,
            DataRateUnit::Kibps => 1024000,
            DataRateUnit::KiBps => 8192,
            DataRateUnit::Mbps => 1000000,
            DataRateUnit::MBps => 8000000,
            DataRateUnit::Mibps => 1024000000,
            DataRateUnit::MiBps => 8192000,
            DataRateUnit::Gbps => 1000000000,
            DataRateUnit::GBps => 8000000000,
            DataRateUnit::Gibps => 1024000000000,
            DataRateUnit::GiBps => 8192000000,
            DataRateUnit::Tbps => 1000000000000,
            DataRateUnit::TBps => 8000000000000,
            DataRateUnit::Tibps => 1024000000000000,
            DataRateUnit::TiBps => 8192000000000,
        }
    }

    /// Bits per second in one of this unit, as a scale factor.
    pub open spec fn spec_scale(self) -> Ratio {
        Ratio { num: self.spec_bits(), den: 1 }
    }

    /// The text that follows a magnitude of this unit: the unit's own name.
    pub open spec fn spec_suffix(self) -> Seq<char> {
        match self {
            DataRateUnit::bps => "bps"@,
            DataRateUnit::Kbps => "Kbps"@,
            DataRateUnit::KBps => "KBps"@,
            DataRateUnit::Kibps => "Kibps"@,
            DataRateUnit::KiBps => "KiBps"@,
            DataRateUnit::Mbps => "Mbps"@,
            DataRateUnit::MBps => "MBps"@,
            DataRateUnit::Mibps => "Mibps"@,
            DataRateUnit::MiBps => "MiBps"@,
            DataRateUnit::Gbps => "Gbps"@,
            DataRateUnit::GBps => "GBps"@,
            DataRateUnit::Gibps => "Gibps"@,
            DataRateUnit::GiBps => "GiBps"@,
            DataRateUnit::Tbps => "Tbps"@,
            DataRateUnit::TBps => "TBps"@,
            DataRateUnit::Tibps => "Tibps"@,
            DataRateUnit::TiBps => "TiBps"@,
        }
    }

    /// The unit of rate that a size of `data` over a time is given in: bits per second for bytes,
    /// and otherwise the unit that names the same amount of data per second.
    pub open spec fn spec_rate_unit(data: DataUnit) -> DataRateUnit {
        match data.spec_canonical() {
            DataUnit::Kilobytes => DataRateUnit::KBps,
            DataUnit::Megabytes => DataRateUnit::MBps,
            DataUnit::Gigabytes => DataRateUnit::GBps,
            DataUnit::Terabytes => DataRateUnit::TBps,
            DataUnit::Kibibytes => DataRateUnit::KiBps,
            DataUnit::Mebibytes => DataRateUnit::MiBps,
            DataUnit::Gibibytes => DataRateUnit::GiBps,
            DataUnit::Tebibytes => DataRateUnit::TiBps,
            _ => DataRateUnit::bps,
        }
    }

    /// What multiplies the magnitude of a size of `data` over a time: eight bits in a byte for
    /// bytes, one for every other unit.
    pub open spec fn spec_rate_multiplier(data: DataUnit) -> u64 {
        if data.spec_canonical() == DataUnit::Bytes {
            8
        } else {
            1
        }
    }

    /// A magnitude `x` of this unit, in bits per second.
    pub open spec fn spec_to_base(self, x: Fraction) -> Fraction {
        to_base_magnitude(x, self.spec_scale())
    }

    /// A magnitude `x` of this unit, in `target`, by way of bits per second.
    pub open spec fn spec_convert(self, x: Fraction, target: DataRateUnit) -> Fraction {
        convert_magnitude(x, self.spec_scale(), target.spec_scale())
    }

    /// The magnitude of the rate that `x` of `data` over `seconds` seconds gives, in the unit
    /// `spec_rate_unit(data)`.
    pub open spec fn spec_rate_magnitude(data: DataUnit, x: Fraction, seconds: Fraction) -> Fraction {
        Fraction::new(Self::spec_rate_multiplier(data) as int, 1).mul(x).div(seconds)
    }

    /// The base unit of data rate.
    pub fn base() -> (r: DataRateUnit)
        ensures
            r == DataRateUnit::bps,
            r.spec_scale().is_identity(),
    {
        DataRateUnit::bps
    }

    /// Whether this is the base unit, bits per second.
    pub fn is_base(self) -> (r: bool)
        ensures
            r == (self == DataRateUnit::bps),
    {
        matches!(self, DataRateUnit::bps)
    }

    /// Bits per second in one of this unit, exactly.
    pub fn scale(self) -> (r: Ratio)
        ensures
            r == self.spec_scale(),
            r.wf(),
    {
        let bits: u64 = match self {
            DataRateUnit::bps => 1,
            DataRateUnit::Kbps => 1000,
            DataRateUnit::KBps => 8000,
            DataRateUnit::Kibps => 1024000,
            DataRateUnit::KiBps => 8192,
            DataRateUnit::Mbps => 1000000,
            DataRateUnit::MBps => 8000000,
            DataRateUnit::Mibps => 1024000000,
            DataRateUnit::MiBps => 8192000,
            DataRateUnit::Gbps => 1000000000,
            DataRateUnit::GBps => 8000000000,
            DataRateUnit::Gibps => 1024000000000,
            DataRateUnit::GiBps => 8192000000,
            DataRateUnit::Tbps => 1000000000000,
            DataRateUnit::TBps => 8000000000000,
            DataRateUnit::Tibps => 1024000000000000,
            DataRateUnit::TiBps => 8192000000000,
        };
        Ratio { num: bits, den: 1 }
    }

    /// The factor that re-expresses a magnitude of this unit in `target`: bits per second in this
    /// unit over bits per second in `target`, unreduced.
    pub fn ratio_to(self, target: DataRateUnit) -> (r: Ratio)
        ensures
            r.num == self.spec_bits(),
            r.den == target.spec_bits(),
            r.wf(),
            forall|x: Fraction| x.valid() ==> #[trigger] x.mul(r@).eqv(self.spec_convert(x, target)),
    {
        let a = self.scale();
        let b = target.scale();
        proof {
            assert forall|x: Fraction| x.valid() implies #[trigger] x.mul(a@.div(b@)).eqv(
                self.spec_convert(x, target),
            ) by {
                lemma_quotient_converts(x, a, b);
            }
        }
        Ratio::between(a, b)
    }

    /// How a size of `data` over a time becomes a rate. The rate's unit follows the size's own
    /// unit, not its measure in bytes: bytes give bits per second, with the magnitude multiplied
    /// by eight; kilobytes give `KBps`, mebibytes `MiBps`, and so on, with the magnitude kept.
    pub fn per_second(data: DataUnit) -> (r: RatePlan)
        ensures
            r.unit == Self::spec_rate_unit(data),
            r.multiplier == Self::spec_rate_multiplier(data),
    {
        match data.canonical() {
            DataUnit::Kilobytes => RatePlan { unit: DataRateUnit::KBps, multiplier: 1 },
            DataUnit::Megabytes => RatePlan { unit: DataRateUnit::MBps, multiplier: 1 },
            DataUnit::Gigabytes => RatePlan { unit: DataRateUnit::GBps, multiplier: 1 },
            DataUnit::Terabytes => RatePlan { unit: DataRateUnit::TBps, multiplier: 1 },
            DataUnit::Kibibytes => RatePlan { unit: DataRateUnit::KiBps, multiplier: 1 },
            DataUnit::Mebibytes => RatePlan { unit: DataRateUnit::MiBps, multiplier: 1 },
            DataUnit::Gibibytes => RatePlan { unit: DataRateUnit::GiBps, multiplier: 1 },
            DataUnit::Tebibytes => RatePlan { unit: DataRateUnit::TiBps, multiplier: 1 },
            _ => RatePlan { unit: DataRateUnit::bps, multiplier: 8 },
        }
    }

    /// The text that follows a magnitude of this unit: its own name, such as `MBps`.
    pub fn suffix(self) -> (r: &'static str)
        ensures
            r@ == self.spec_suffix(),
    {
        match self {
            DataRateUnit::bps => "bps",
            DataRateUnit::Kbps => "Kbps",
            DataRateUnit::KBps => "KBps",
            DataRateUnit::Kibps => "Kibps",
            DataRateUnit::KiBps => "KiBps",
            DataRateUnit::Mbps => "Mbps",
            DataRateUnit::MBps => "MBps",
            DataRateUnit::Mibps => "Mibps",
            DataRateUnit::MiBps => "MiBps",
            DataRateUnit::Gbps => "Gbps",
            DataRateUnit::GBps => "GBps",
            DataRateUnit::Gibps => "Gibps",
            DataRateUnit::GiBps => "GiBps",
            DataRateUnit::Tbps => "Tbps",
            DataRateUnit::TBps => "TBps",
            DataRateUnit::Tibps => "Tibps",
            DataRateUnit::TiBps => "TiBps",
        }
    }

    /// A magnitude's text followed by a space and this unit's suffix (`"1"` in megabytes per
    /// second gives `"1 MBps"`).
    pub fn render(self, magnitude: &str) -> (r: String)
        ensures
            r@ == magnitude@ + " "@ + self.spec_suffix(),
    {
        quantity_text(magnitude, self.suffix())
    }
}

/// Converting a data rate to bits per second and then to `target` gives what converting it to
/// `target` directly gives; and converting it to bits per second and back to its own unit gives
/// its magnitude back.
pub proof fn lemma_data_rate_round_trip(unit: DataRateUnit, target: DataRateUnit, x: Fraction)
    requires
        x.valid(),
    ensures
        DataRateUnit::bps.spec_convert(unit.spec_to_base(x), target).eqv(
            unit.spec_convert(x, target),
        ),
        DataRateUnit::bps.spec_convert(unit.spec_to_base(x), unit).eqv(x),
{
    lemma_convert_through_base(x, unit.spec_scale(), DataRateUnit::bps.spec_scale(), target.spec_scale());
    lemma_back_from_base(x, unit.spec_scale(), DataRateUnit::bps.spec_scale());
}

/// A data rate already in bits per second stays as it is when taken to bits per second again.
pub proof fn lemma_data_rate_base_idempotent(unit: DataRateUnit, x: Fraction)
    requires
        x.valid(),
    ensures
        DataRateUnit::bps.spec_to_base(unit.spec_to_base(x)).eqv(unit.spec_to_base(x)),
{
    lemma_to_base_valid(x, unit.spec_scale());
    lemma_identity_keeps(unit.spec_to_base(x), DataRateUnit::bps.spec_scale());
}

/// For bytes and the decimal units of data, the rate that `x` of `data` over `seconds` seconds
/// gives is, in bits per second, eight times the size in bytes over the seconds.
pub proof fn lemma_rate_counts_bits(data: DataUnit, x: Fraction, seconds: Fraction)
    requires
        data.is_decimal(),
        x.valid(),
        seconds.valid(),
        seconds.num != 0,
    ensures
        DataRateUnit::spec_rate_unit(data).spec_to_base(
            DataRateUnit::spec_rate_magnitude(data, x, seconds),
        ).eqv(data.spec_to_base(x).mul(Fraction::new(8, 1)).div(seconds)),
{
    let m = DataRateUnit::spec_rate_multiplier(data) as int;
    let r = DataRateUnit::spec_rate_unit(data).spec_bits() as int;
    let b = data.spec_bytes() as int;
    assert(m * r == 8 * b);
    lemma_scaled_quotient(m, r, b, x, seconds);
}

/// `(m * x / s) * r` and `(x * b) * 8 / s` are the same number where `m * r == 8 * b`.
proof fn lemma_scaled_quotient(m: int, r: int, b: int, x: Fraction, s: Fraction)
    requires
        m * r == 8 * b,
    ensures
        Fraction::new(m, 1).mul(x).div(s).mul(Fraction::new(r, 1)).eqv(
            x.mul(Fraction::new(b, 1)).mul(Fraction::new(8, 1)).div(s),
        ),
{
    let (xn, xd, sn, sd) = (x.num, x.den, s.num, s.den);
    assert(((m * xn) * sd) * r == (m * r) * (xn * sd)) by (nonlinear_arith);
    assert(((xn * b) * 8) * sd == (8 * b) * (xn * sd)) by (nonlinear_arith);
    assert(((1 * xd) * sn) * 1 == ((xd * 1) * 1) * sn) by (nonlinear_arith);
}

} // verus!
