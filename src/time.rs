//! Units of time. The base unit is the second; a year is 365 days.

use vstd::prelude::*;
use crate::label::quantity_text;
use crate::scale::{Fraction, Ratio, SumPlan, to_base_magnitude, convert_magnitude};
use crate::scale::{lemma_back_from_base, lemma_convert_through_base, lemma_identity_keeps};
use crate::scale::{lemma_quotient_converts, lemma_sum_in_left_unit, lemma_to_base_valid};
use crate::scale::{lemma_add_congruent, lemma_add_equal_is_double, lemma_eqv_trans};
use crate::scale::{lemma_mul_congruent, lemma_nonzero_product};

verus! {

/// Seconds in a minute.
pub const SECONDS_PER_MINUTE: u64 = 60;

/// Seconds in an hour.
pub const SECONDS_PER_HOUR: u64 = 3600;

/// Seconds in a day.
pub const SECONDS_PER_DAY: u64 = 86400;

/// Seconds in a year of 365 days.
pub const SECONDS_PER_YEAR: u64 = 31536000;

/// The units of time.
#[derive(Clone, Copy, Debug, PartialEq, Eq, Structural)]
pub enum TimeUnit {
    Seconds,
    Minutes,
    Hours,
    Days,
    Years,
}

impl TimeUnit {
    /// Seconds in one of this unit.
    pub open spec fn spec_seconds(self) -> u64 {
        match self {
            TimeUnit::Seconds => 1,
            TimeUnit::Minutes => SECONDS_PER_MINUTE,
            TimeUnit::Hours => SECONDS_PER_HOUR,
            TimeUnit::Days => SECONDS_PER_DAY,
            TimeUnit::Years => SECONDS_PER_YEAR,
        }
    }

    /// Seconds in one of this unit, as a scale factor.
    pub open spec fn spec_scale(self) -> Ratio {
        Ratio { num: self.spec_seconds(), den: 1 }
    }

    /// The text that follows a magnitude of this unit.
    pub open spec fn spec_suffix(self) -> Seq<char> {
        match self {
            TimeUnit::Seconds => "s"@,
            TimeUnit::Minutes => "min"@,
            TimeUnit::Hours => "h"@,
            TimeUnit::Days => "d"@,
            TimeUnit::Years => "yr"@,
        }
    }

    /// How many of this unit one `other` is, as the table that adds and subtracts times states
    /// it: a whole multiplier when `other` is the larger unit, one over a whole divisor when it is
    /// the smaller.
    pub open spec fn spec_step_from(self, other: TimeUnit) -> Ratio {
        match (self, other) {
            (TimeUnit::Seconds, TimeUnit::Minutes) => Ratio { num: 60, den: 1 },
            (TimeUnit::Seconds, TimeUnit::Hours) => Ratio { num: 3600, den: 1 },
            (TimeUnit::Seconds, TimeUnit::Days) => Ratio { num: 86400, den: 1 },
            (TimeUnit::Seconds, TimeUnit::Years) => Ratio { num: 31536000, den: 1 },
            (TimeUnit::Minutes, TimeUnit::Seconds) => Ratio { num: 1, den: 60 },
            (TimeUnit::Minutes, TimeUnit::Hours) => Ratio { num: 60, den: 1 },
            (TimeUnit::Minutes, TimeUnit::Days) => Ratio { num: 1440, den: 1 },
            (TimeUnit::Minutes, TimeUnit::Years) => Ratio { num: 525600, den: 1 },
            (TimeUnit::Hours, TimeUnit::Seconds) => Ratio { num: 1, den: 3600 },
            (TimeUnit::Hours, TimeUnit::Minutes) => Ratio { num: 1, den: 60 },
            (TimeUnit::Hours, TimeUnit::Days) => Ratio { num: 24, den: 1 },
            (TimeUnit::Hours, TimeUnit::Years) => Ratio { num: 8760, den: 1 },
            (TimeUnit::Days, TimeUnit::Seconds) => Ratio { num: 1, den: 86400 },
            (TimeUnit::Days, TimeUnit::Minutes) => Ratio { num: 1, den: 1440 },
            (TimeUnit::Days, TimeUnit::Hours) => Ratio { num: 1, den: 24 },
            (TimeUnit::Days, TimeUnit::Years) => Ratio { num: 365, den: 1 },
            (TimeUnit::Years, TimeUnit::Seconds) => Ratio { num: 1, den: 31536000 },
            (TimeUnit::Years, TimeUnit::Minutes) => Ratio { num: 1, den: 525600 },
            (TimeUnit::Years, TimeUnit::Hours) => Ratio { num: 1, den: 8760 },
            (TimeUnit::Years, TimeUnit::Days) => Ratio { num: 1, den: 365 },
            _ => Ratio { num: 1, den: 1 },
        }
    }

    /// A magnitude `x` of this unit, in seconds.
    pub open spec fn spec_to_base(self, x: Fraction) -> Fraction {
        to_base_magnitude(x, self.spec_scale())
    }

    /// A magnitude `x` of this unit, in `target`, by way of seconds.
    pub open spec fn spec_convert(self, x: Fraction, target: TimeUnit) -> Fraction {
        convert_magnitude(x, self.spec_scale(), target.spec_scale())
    }

    /// The base unit of time.
    pub fn base() -> (r: TimeUnit)
        ensures
            r == TimeUnit::Seconds,
            r.spec_scale().is_identity(),
    {
        TimeUnit::Seconds
    }

    /// Whether this is the base unit, seconds.
    pub fn is_base(self) -> (r: bool)
        ensures
            r == (self == TimeUnit::Seconds),
    {
        matches!(self, TimeUnit::Seconds)
    }

    /// Seconds in one of this unit, exactly.
    pub fn scale(self) -> (r: Ratio)
        ensures
            r == self.spec_scale(),
            r.wf(),
            r.num <= SECONDS_PER_YEAR,
    {
        let seconds: u64 = match self {
            TimeUnit::Seconds => 1,
            TimeUnit::Minutes => SECONDS_PER_MINUTE,
            TimeUnit::Hours => SECONDS_PER_HOUR,
            TimeUnit::Days => SECONDS_PER_DAY,
            TimeUnit::Years => SECONDS_PER_YEAR,
        };
        Ratio { num: seconds, den: 1 }
    }

    /// The factor that re-expresses a magnitude of this unit in `target`: seconds per this unit
    /// over seconds per `target`, unreduced.
    pub fn ratio_to(self, target: TimeUnit) -> (r: Ratio)
        ensures
            r.num == self.spec_seconds(),
            r.den == target.spec_seconds(),
            r.wf(),
            forall|x: Fraction| x.valid() ==> #[trigger] x.mul(r@).eqv(self.spec_convert(x, target)),
    {
        let a = self.scale();
        let b = target.scale();
        proof {
            assert forall|x: Fraction| x.valid() implies #[trigger] x.mul(a@.div(b@)).eqv(
                self.spec_convert(x, target),
            ) by {
                lemma_quotient_converts(x, a, b);
            }
        }
        Ratio::between(a, b)
    }

    /// How many of this unit one `other` is, from the table that adds and subtracts times.
    pub fn step_from(self, other: TimeUnit) -> (r: Ratio)
        ensures
            r == self.spec_step_from(other),
            r.wf(),
    {
        match (self, other) {
            (TimeUnit::Seconds, TimeUnit::Minutes) => Ratio { num: 60, den: 1 },
            (TimeUnit::Seconds, TimeUnit::Hours) => Ratio { num: 3600, den: 1 },
            (TimeUnit::Seconds, TimeUnit::Days) => Ratio { num: 86400, den: 1 },
            (TimeUnit::Seconds, TimeUnit::Years) => Ratio { num: 31536000, den: 1 },
            (TimeUnit::Minutes, TimeUnit::Seconds) => Ratio { num: 1, den: 60 },
            (TimeUnit::Minutes, TimeUnit::Hours) => Ratio { num: 60, den: 1 },
            (TimeUnit::Minutes, TimeUnit::Days) => Ratio { num: 1440, den: 1 },
            (TimeUnit::Minutes, TimeUnit::Years) => Ratio { num: 525600, den: 1 },
            (TimeUnit::Hours, TimeUnit::Seconds) => Ratio { num: 1, den: 3600 },
            (TimeUnit::Hours, TimeUnit::Minutes) => Ratio { num: 1, den: 60 },
            (TimeUnit::Hours, TimeUnit::Days) => Ratio { num: 24, den: 1 },
            (TimeUnit::Hours, TimeUnit::Years) => Ratio { num: 8760, den: 1 },
            (TimeUnit::Days, TimeUnit::Seconds) => Ratio { num: 1, den: 86400 },
            (TimeUnit::Days, TimeUnit::Minutes) => Ratio { num: 1, den: 1440 },
            (TimeUnit::Days, TimeUnit::Hours) => Ratio { num: 1, den: 24 },
            (TimeUnit::Days, TimeUnit::Years) => Ratio { num: 365, den: 1 },
            (TimeUnit::Years, TimeUnit::Seconds) => Ratio { num: 1, den: 31536000 },
            (TimeUnit::Years, TimeUnit::Minutes) => Ratio { num: 1, den: 525600 },
            (TimeUnit::Years, TimeUnit::Hours) => Ratio { num: 1, den: 8760 },
            (TimeUnit::Years, TimeUnit::Days) => Ratio { num: 1, den: 365 },
            _ => Ratio { num: 1, den: 1 },
        }
    }

    /// How a time of `other` is added to or subtracted from a time of this unit: the result is
    /// in this unit, whatever `other` is, and the right operand is scaled by the table's entry.
    pub fn combine(self, other: TimeUnit) -> (r: SumPlan<TimeUnit>)
        ensures
            r.unit == self,
            r.factor == self.spec_step_from(other),
    {
        SumPlan { unit: self, factor: self.step_from(other) }
    }

    /// The text that follows a magnitude of this unit: `s`, `min`, `h`, `d` or `yr`.
    pub fn suffix(self) -> (r: &'static str)
        ensures
            r@ == self.spec_suffix(),
    {
        match self {
            TimeUnit::Seconds => "s",
            TimeUnit::Minutes => "min",
            TimeUnit::Hours => "h",
            TimeUnit::Days => "d",
            TimeUnit::Years => "yr",
        }
    }

    /// A magnitude's text followed by a space and this unit's suffix (`"90"` in minutes gives
    /// `"90 min"`).
    pub fn render(self, magnitude: &str) -> (r: String)
        ensures
            r@ == magnitude@ + " "@ + self.spec_suffix(),
    {
        quantity_text(magnitude, self.suffix())
    }
}

/// Every entry of the table that adds and subtracts times agrees with going through seconds:
/// one `other` is as many of `unit` as seconds per `other` over seconds per `unit`.
pub proof fn lemma_time_table_matches_base(unit: TimeUnit, other: TimeUnit) by (nonlinear_arith)
    ensures
        unit.spec_step_from(other).wf(),
        unit.spec_step_from(other)@.eqv(other.spec_scale()@.div(unit.spec_scale()@)),
{
    match unit {
        TimeUnit::Seconds => match other {
            TimeUnit::Seconds => {},
            TimeUnit::Minutes => {},
            TimeUnit::Hours => {},
            TimeUnit::Days => {},
            TimeUnit::Years => {},
        },
        TimeUnit::Minutes => match other {
            TimeUnit::Seconds => {},
            TimeUnit::Minutes => {},
            TimeUnit::Hours => {},
            TimeUnit::Days => {},
            TimeUnit::Years => {},
        },
        TimeUnit::Hours => match other {
            TimeUnit::Seconds => {},
            TimeUnit::Minutes => {},
            TimeUnit::Hours => {},
            TimeUnit::Days => {},
            TimeUnit::Years => {},
        },
        TimeUnit::Days => match other {
            TimeUnit::Seconds => {},
            TimeUnit::Minutes => {},
            TimeUnit::Hours => {},
            TimeUnit::Days => {},
            TimeUnit::Years => {},
        },
        TimeUnit::Years => match other {
            TimeUnit::Seconds => {},
            TimeUnit::Minutes => {},
            TimeUnit::Hours => {},
            TimeUnit::Days => {},
            TimeUnit::Years => {},
        },
    }
}

/// Adding a time `y` of unit `right` to a time `x` of unit `left` by the table gives, in the
/// left unit, a time whose measure in seconds is the sum of the two; subtracting gives the
/// difference.
pub proof fn lemma_time_sum(left: TimeUnit, right: TimeUnit, x: Fraction, y: Fraction)
    requires
        x.valid(),
        y.valid(),
    ensures
        left.spec_to_base(x.add(y.mul(left.spec_step_from(right)@))).eqv(
            left.spec_to_base(x).add(right.spec_to_base(y)),
        ),
        left.spec_to_base(x.sub(y.mul(left.spec_step_from(right)@))).eqv(
            left.spec_to_base(x).sub(right.spec_to_base(y)),
        ),
{
    let sl = left.spec_scale();
    let sr = right.spec_scale();
    let f = left.spec_step_from(right)@;
    let g = sr@.div(sl@);
    lemma_time_table_matches_base(left, right);
    lemma_nonzero_product(sr.den as int, sl.num as int);
    lemma_mul_congruent(y, f, g);
    lemma_add_congruent(x, y.mul(f), y.mul(g));
    lemma_mul_congruent(sl@, x.add(y.mul(f)), x.add(y.mul(g)));
    lemma_mul_congruent(sl@, x.sub(y.mul(f)), x.sub(y.mul(g)));
    lemma_sum_in_left_unit(x, y, sl, sr);
    lemma_nonzero_product(x.den, y.den * g.den);
    lemma_nonzero_product(x.den * (y.den * g.den), sl.den as int);
    lemma_nonzero_product(x.den * sl.den, y.den * sr.den);
    lemma_eqv_trans(
        left.spec_to_base(x.add(y.mul(f))),
        left.spec_to_base(x.add(y.mul(g))),
        left.spec_to_base(x).add(right.spec_to_base(y)),
    );
    lemma_eqv_trans(
        left.spec_to_base(x.sub(y.mul(f))),
        left.spec_to_base(x.sub(y.mul(g))),
        left.spec_to_base(x).sub(right.spec_to_base(y)),
    );
}

/// Adding two times that last equally long, whatever their units, gives in seconds twice what
/// either lasts.
pub proof fn lemma_time_sum_of_equal_durations(
    left: TimeUnit,
    right: TimeUnit,
    x: Fraction,
    y: Fraction,
)
    requires
        x.valid(),
        y.valid(),
        left.spec_to_base(x).eqv(right.spec_to_base(y)),
    ensures
        left.spec_to_base(x.add(y.mul(left.spec_step_from(right)@))).eqv(
            left.spec_to_base(x).mul(Fraction::new(2, 1)),
        ),
{
    lemma_time_sum(left, right, x, y);
    lemma_to_base_valid(x, left.spec_scale());
    lemma_to_base_valid(y, right.spec_scale());
    lemma_add_equal_is_double(left.spec_to_base(x), right.spec_to_base(y));
    let f = left.spec_step_from(right);
    lemma_nonzero_product(y.den, f.den as int);
    lemma_nonzero_product(x.den, y.den * f.den);
    lemma_nonzero_product(x.den * (y.den * f.den), left.spec_scale().den as int);
    lemma_eqv_trans(
        left.spec_to_base(x.add(y.mul(f@))),
        left.spec_to_base(x).add(right.spec_to_base(y)),
        left.spec_to_base(x).mul(Fraction::new(2, 1)),
    );
}

/// Converting a time to seconds and then to `target` gives what converting it to `target`
/// directly gives; and converting it to seconds and back to its own unit gives its magnitude
/// back.
pub proof fn lemma_time_round_trip(unit: TimeUnit, target: TimeUnit, x: Fraction)
    requires
        x.valid(),
    ensures
        TimeUnit::Seconds.spec_convert(unit.spec_to_base(x), target).eqv(
            unit.spec_convert(x, target),
        ),
        TimeUnit::Seconds.spec_convert(unit.spec_to_base(x), unit).eqv(x),
{
    lemma_convert_through_base(x, unit.spec_scale(), TimeUnit::Seconds.spec_scale(), target.spec_scale());
    lemma_back_from_base(x, unit.spec_scale(), TimeUnit::Seconds.spec_scale());
}

/// A time already in seconds stays as it is when taken to seconds again.
pub proof fn lemma_time_base_idempotent(unit: TimeUnit, x: Fraction)
    requires
        x.valid(),
    ensures
        TimeUnit::Seconds.spec_to_base(unit.spec_to_base(x)).eqv(unit.spec_to_base(x)),
{
    lemma_to_base_valid(x, unit.spec_scale());
    lemma_identity_keeps(unit.spec_to_base(x), TimeUnit::Seconds.spec_scale());
}

} // verus!
