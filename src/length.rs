//! Units of length. The base unit is the meter.

use vstd::prelude::*;
use crate::label::quantity_text;
use crate::scale::{Fraction, Ratio, SumPlan, to_base_magnitude, convert_magnitude};
use crate::scale::{lemma_back_from_base, lemma_convert_through_base, lemma_identity_keeps};
use crate::scale::{lemma_quotient_converts, lemma_sum_in_left_unit, lemma_to_base_valid};

verus! {

/// The units of length. Each short name (`mm`, `ft`, ...) is an alias that stands for the same
/// unit as the long name beside it.
#[allow(non_camel_case_types)]
#[derive(Clone, Copy, Debug, PartialEq, Eq, Structural)]
pub enum LengthUnit {
    Millimeters,
    mm,
    Centimeters,
    cm,
    Meters,
    m,
    Kilometers,
    km,
    Feet,
    ft,
    Inches,
    inch,
    Yards,
    yd,
    NauticalMiles,
    nmi,
}

impl LengthUnit {
    /// The unit that an alias stands for; a long name stands for itself.
    pub open spec fn spec_canonical(self) -> LengthUnit {
        match self {
            LengthUnit::mm => LengthUnit::Millimeters,
            LengthUnit::cm => LengthUnit::Centimeters,
            LengthUnit::m => LengthUnit::Meters,
            LengthUnit::km => LengthUnit::Kilometers,
            LengthUnit::ft => LengthUnit::Feet,
            LengthUnit::inch => LengthUnit::Inches,
            LengthUnit::yd => LengthUnit::Yards,
            LengthUnit::nmi => LengthUnit::NauticalMiles,
            _ => self,
        }
    }

    /// Meters in one of this unit. A foot is 1 / 3.28084 m, an inch 1 / 39.3701 m and a yard
    /// 1 / 1.09361 m; a nautical mile is 1852 m.
    pub open spec fn spec_scale(self) -> Ratio {
        match self.spec_canonical() {
            LengthUnit::Millimeters => Ratio { num: 1, den: 1000 },
            LengthUnit::Centimeters => Ratio { num: 1, den: 100 },
            LengthUnit::Kilometers => Ratio { num: 1000, den: 1 },
            LengthUnit::Feet => Ratio { num: 100000, den: 328084 },
            LengthUnit::Inches => Ratio { num: 10000, den: 393701 },
            LengthUnit::Yards => Ratio { num: 100000, den: 109361 },
            LengthUnit::NauticalMiles => Ratio { num: 1852, den: 1 },
            _ => Ratio { num: 1, den: 1 },
        }
    }

    /// The text that follows a magnitude of this unit.
    pub open spec fn spec_suffix(self) -> Seq<char> {
        match self.spec_canonical() {
            LengthUnit::Millimeters => "mm"@,
            LengthUnit::Centimeters => "cm"@,
            LengthUnit::Kilometers => "km"@,
            LengthUnit::Feet => "ft"@,
            LengthUnit::Inches => "in"@,
            LengthUnit::Yards => "yd"@,
            LengthUnit::NauticalMiles => "nmi"@,
            _ => "m"@,
        }
    }

    /// A magnitude `x` of this unit, in meters.
    pub open spec fn spec_to_base(self, x: Fraction) -> Fraction {
        to_base_magnitude(x, self.spec_scale())
    }

    /// A magnitude `x` of this unit, in `target`, by way of meters.
    pub open spec fn spec_convert(self, x: Fraction, target: LengthUnit) -> Fraction {
        convert_magnitude(x, self.spec_scale(), target.spec_scale())
    }

    /// The base unit of length.
    pub fn base() -> (r: LengthUnit)
        ensures
            r == LengthUnit::Meters,
            r.spec_scale().is_identity(),
    {
        LengthUnit::Meters
    }

    /// The unit that this name stands for: aliases map to the long name of their unit.
    pub fn canonical(self) -> (r: LengthUnit)
        ensures
            r == self.spec_canonical(),
            r.spec_canonical() == r,
            r.spec_scale() == self.spec_scale(),
            r.spec_suffix() == self.spec_suffix(),
    {
        match self {
            LengthUnit::Millimeters | LengthUnit::mm => LengthUnit::Millimeters,
            LengthUnit::Centimeters | LengthUnit::cm => LengthUnit::Centimeters,
            LengthUnit::Meters | LengthUnit::m => LengthUnit::Meters,
            LengthUnit::Kilometers | LengthUnit::km => LengthUnit::Kilometers,
            LengthUnit::Feet | LengthUnit::ft => LengthUnit::Feet,
            LengthUnit::Inches | LengthUnit::inch => LengthUnit::Inches,
            LengthUnit::Yards | LengthUnit::yd => LengthUnit::Yards,
            LengthUnit::NauticalMiles | LengthUnit::nmi => LengthUnit::NauticalMiles,
        }
    }

    /// Whether this is the base unit, meters.
    pub fn is_base(self) -> (r: bool)
        ensures
            r == (self.spec_canonical() == LengthUnit::Meters),
    {
        matches!(self, LengthUnit::Meters | LengthUnit::m)
    }

    /// Meters in one of this unit, exactly.
    pub fn scale(self) -> (r: Ratio)
        ensures
            r == self.spec_scale(),
            r.wf(),
            r.num <= 100000,
            r.den <= 393701,
    {
        match self.canonical() {
            LengthUnit::Millimeters => Ratio { num: 1, den: 1000 },
            LengthUnit::Centimeters => Ratio { num: 1, den: 100 },
            LengthUnit::Kilometers => Ratio { num: 1000, den: 1 },
            LengthUnit::Feet => Ratio { num: 100000, den: 328084 },
            LengthUnit::Inches => Ratio { num: 10000, den: 393701 },
            LengthUnit::Yards => Ratio { num: 100000, den: 109361 },
            LengthUnit::NauticalMiles => Ratio { num: 1852, den: 1 },
            _ => Ratio { num: 1, den: 1 },
        }
    }

    /// The factor that re-expresses a magnitude of this unit in `target`: meters per this unit
    /// over meters per `target`, unreduced.
    pub fn ratio_to(self, target: LengthUnit) -> (r: Ratio)
        ensures
            r.num == self.spec_scale().num * target.spec_scale().den,
            r.den == self.spec_scale().den * target.spec_scale().num,
            r.wf(),
            forall|x: Fraction| x.valid() ==> #[trigger] x.mul(r@).eqv(self.spec_convert(x, target)),
    {
        let a = self.scale();
        let b = target.scale();
        proof {
            assert(a.num * b.den <= 100000 * 393701) by (nonlinear_arith)
                requires
                    a.num <= 100000,
                    b.den <= 393701,
            ;
            assert(a.den * b.num <= 393701 * 100000) by (nonlinear_arith)
                requires
                    a.den <= 393701,
                    b.num <= 100000,
            ;
            assert forall|x: Fraction| x.valid() implies #[trigger] x.mul(a@.div(b@)).eqv(
                self.spec_convert(x, target),
            ) by {
                lemma_quotient_converts(x, a, b);
            }
        }
        Ratio::between(a, b)
    }

    /// How a length of `other` is added to or subtracted from a length of this unit: the result
    /// is in this unit, whatever `other` is, and the right operand is first converted into it.
    pub fn combine(self, other: LengthUnit) -> (r: SumPlan<LengthUnit>)
        ensures
            r.unit == self.spec_canonical(),
            r.factor.num == other.spec_scale().num * self.spec_scale().den,
            r.factor.den == other.spec_scale().den * self.spec_scale().num,
            r.factor.wf(),
    {
        SumPlan { unit: self.canonical(), factor: other.ratio_to(self) }
    }

    /// The text that follows a magnitude of this unit: `mm`, `cm`, `m`, `km`, `ft`, `in`, `yd`
    /// or `nmi`.
    pub fn suffix(self) -> (r: &'static str)
        ensures
            r@ == self.spec_suffix(),
    {
        match self.canonical() {
            LengthUnit::Millimeters => "mm",
            LengthUnit::Centimeters => "cm",
            LengthUnit::Kilometers => "km",
            LengthUnit::Feet => "ft",
            LengthUnit::Inches => "in",
            LengthUnit::Yards => "yd",
            LengthUnit::NauticalMiles => "nmi",
            _ => "m",
        }
    }

    /// A magnitude's text followed by a space and this unit's suffix (`"2"` in kilometers gives
    /// `"2 km"`).
    pub fn render(self, magnitude: &str) -> (r: String)
        ensures
            r@ == magnitude@ + " "@ + self.spec_suffix(),
    {
        quantity_text(magnitude, self.suffix())
    }
}

/// Converting a length to meters and then to `target` gives what converting it to `target`
/// directly gives; and converting it to meters and back to its own unit gives its magnitude
/// back.
pub proof fn lemma_length_round_trip(unit: LengthUnit, target: LengthUnit, x: Fraction)
    requires
        x.valid(),
    ensures
        LengthUnit::Meters.spec_convert(unit.spec_to_base(x), target).eqv(
            unit.spec_convert(x, target),
        ),
        LengthUnit::Meters.spec_convert(unit.spec_to_base(x), unit).eqv(x),
{
    lemma_convert_through_base(x, unit.spec_scale(), LengthUnit::Meters.spec_scale(), target.spec_scale());
    lemma_back_from_base(x, unit.spec_scale(), LengthUnit::Meters.spec_scale());
}

/// A length already in meters stays as it is when taken to meters again.
pub proof fn lemma_length_base_idempotent(unit: LengthUnit, x: Fraction)
    requires
        x.valid(),
    ensures
        LengthUnit::Meters.spec_to_base(unit.spec_to_base(x)).eqv(unit.spec_to_base(x)),
{
    lemma_to_base_valid(x, unit.spec_scale());
    lemma_identity_keeps(unit.spec_to_base(x), LengthUnit::Meters.spec_scale());
}

/// Adding a length `y` of unit `right` to a length `x` of unit `left` gives, in the left unit, a
/// length whose measure in meters is the sum of the two; subtracting gives the difference.
pub proof fn lemma_length_sum(left: LengthUnit, right: LengthUnit, x: Fraction, y: Fraction)
    requires
        x.valid(),
        y.valid(),
    ensures
        left.spec_to_base(x.add(y.mul(right.spec_scale()@.div(left.spec_scale()@)))).eqv(
            left.spec_to_base(x).add(right.spec_to_base(y)),
        ),
        left.spec_to_base(x.sub(y.mul(right.spec_scale()@.div(left.spec_scale()@)))).eqv(
            left.spec_to_base(x).sub(right.spec_to_base(y)),
        ),
{
    lemma_sum_in_left_unit(x, y, left.spec_scale(), right.spec_scale());
}

} // verus!
