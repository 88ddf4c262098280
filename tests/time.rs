use unit_types::time::{SECONDS_PER_DAY, SECONDS_PER_YEAR};
use unit_types::{Ratio, TimeUnit};

const ALL: [TimeUnit; 5] = [
    TimeUnit::Seconds,
    TimeUnit::Minutes,
    TimeUnit::Hours,
    TimeUnit::Days,
    TimeUnit::Years,
];

/// A magnitude multiplied by a scale factor, as a quantity type computes it.
fn apply(f: Ratio, x: f64) -> f64 {
    x * f.num as f64 / f.den as f64
}

/// A magnitude of `unit` in seconds.
fn seconds(t: (TimeUnit, f64)) -> f64 {
    apply(t.0.scale(), t.1)
}

/// Two times are equal when their measures in seconds are closer than machine epsilon.
fn same_time(a: (TimeUnit, f64), b: (TimeUnit, f64)) -> bool {
    (seconds(a) - seconds(b)).abs() < f64::EPSILON
}

/// `a + b` by the table, in `a`'s unit.
fn add(a: (TimeUnit, f64), b: (TimeUnit, f64)) -> (TimeUnit, f64) {
    let plan = a.0.combine(b.0);
    (plan.unit, a.1 + apply(plan.factor, b.1))
}

/// `a - b` by the table, in `a`'s unit.
fn sub(a: (TimeUnit, f64), b: (TimeUnit, f64)) -> (TimeUnit, f64) {
    let plan = a.0.combine(b.0);
    (plan.unit, a.1 - apply(plan.factor, b.1))
}

/// `value` rounded to `decimals` places.
fn round(value: f64, decimals: u32) -> f64 {
    let factor = 10_f64.powi(decimals as i32);
    (value * factor).round() / factor
}

#[test]
fn test_time_ops() {
    let x1 = (TimeUnit::Seconds, 1.0);
    let x2 = (TimeUnit::Minutes, 1.0);
    let x3 = (TimeUnit::Hours, 1.0);
    let x4 = (TimeUnit::Days, 1.0);
    let x5 = (TimeUnit::Years, 1.0);

    assert!(same_time(add(x1, x2), (TimeUnit::Seconds, 61.0)));
    assert!(same_time(add(x1, x3), (TimeUnit::Seconds, 3601.0)));
    assert!(same_time(add(x1, x4), (TimeUnit::Seconds, 86401.0)));
    assert!(same_time(add(x1, x5), (TimeUnit::Seconds, 31536001.0)));

    assert!(same_time(sub(x1, x2), (TimeUnit::Seconds, -59.0)));
    assert!(same_time(sub(x1, x3), (TimeUnit::Seconds, -3599.0)));
    assert!(same_time(sub(x1, x4), (TimeUnit::Seconds, -86399.0)));
    assert!(same_time(sub(x1, x5), (TimeUnit::Seconds, -31535999.0)));

    assert!(same_time((x1.0, x1.1 * 2.0), (TimeUnit::Seconds, 2.0)));
    assert!(same_time((x1.0, 2.0 * x1.1), (TimeUnit::Seconds, 2.0)));
    assert!(same_time((x1.0, x1.1 / 2.0), (TimeUnit::Seconds, 0.5)));
}

#[test]
fn test_conversions() {
    let x1 = (TimeUnit::Seconds, 1.0);
    let x2 = (TimeUnit::Minutes, 1.0);
    let x3 = (TimeUnit::Hours, 1.0);
    let x4 = (TimeUnit::Days, 1.0);
    let x5 = (TimeUnit::Years, 1.0);

    assert_eq!(x2.1, 1.0);
    assert_eq!(x3.1, 1.0);
    assert_eq!(x4.1, 1.0);
    assert_eq!(x5.1, 1.0);
    assert_eq!(seconds(x2), 60.0);
    assert_eq!(seconds(x3), 60.0 * 60.0);
    assert_eq!(seconds(x4), 60.0 * 60.0 * 24.0);
    assert_eq!(seconds(x5), 60.0 * 60.0 * 24.0 * 365.0);
    assert_eq!(apply(TimeUnit::Seconds.ratio_to(TimeUnit::Seconds), seconds(x2)), 60.0);

    let to = |unit: TimeUnit| (unit, apply(TimeUnit::Seconds.ratio_to(unit), seconds(x1)));
    assert!(same_time(to(TimeUnit::Minutes), (TimeUnit::Minutes, 1.0 / 60.0)));
    assert!(same_time(to(TimeUnit::Hours), (TimeUnit::Hours, 1.0 / 3600.0)));
    assert!(same_time(to(TimeUnit::Days), (TimeUnit::Days, 1.0 / 86400.0)));
    assert!(same_time(to(TimeUnit::Years), (TimeUnit::Years, 1.0 / 31536000.0)));
}

#[test]
fn test_comparison() {
    let x1 = (TimeUnit::Seconds, 1.0);
    let x2 = (TimeUnit::Minutes, 1.0);
    let x3 = (TimeUnit::Hours, 1.0);
    let x4 = (TimeUnit::Days, 1.0);
    let x5 = (TimeUnit::Years, 1.0);

    assert!(seconds(x1) < seconds(x2));
    assert!(seconds(x2) < seconds(x3));
    assert!(seconds(x3) < seconds(x4));
    assert!(seconds(x4) < seconds(x5));
}

#[test]
fn test_multiply() {
    for unit in ALL {
        let one = (unit, 1.0);
        assert!(same_time((unit, one.1 * 2.0), (unit, 2.0)));
        assert!(same_time((unit, 3.0 * one.1), (unit, 3.0)));
    }
}

#[test]
fn test_divide() {
    for unit in ALL {
        let one = (unit, 1.0);
        assert!(same_time((unit, one.1 / 2.0), (unit, 0.5)));
    }
}

#[test]
fn test_add() {
    let times = [
        (TimeUnit::Seconds, 60.0 * 60.0 * 24.0),
        (TimeUnit::Minutes, 60.0 * 24.0),
        (TimeUnit::Hours, 24.0),
        (TimeUnit::Days, 1.0),
        (TimeUnit::Years, 1.0 / 365.0),
    ];
    for i in 0..times.len() {
        for j in 0..times.len() {
            let z = add(times[i], times[j]);
            assert_eq!(seconds(z), 2.0 * 60.0 * 60.0 * 24.0);
        }
    }
}

#[test]
fn test_sub() {
    let times = [
        (TimeUnit::Seconds, 2.0 * 60.0 * 60.0 * 24.0),
        (TimeUnit::Minutes, 2.0 * 60.0 * 24.0),
        (TimeUnit::Hours, 2.0 * 24.0),
        (TimeUnit::Days, 2.0 * 1.0),
        (TimeUnit::Years, round(2.0 * 1.0 / 365.0, 20)),
    ];
    for i in 0..times.len() {
        for j in 0..times.len() {
            let (unit, half) = (times[j].0, times[j].1 / 2.0);
            let z = sub(times[i], (unit, half));
            assert_eq!(round(seconds(z), 1), 60.0 * 60.0 * 24.0);
        }
    }
}

#[test]
fn time_table_agrees_with_seconds() {
    for left in ALL {
        for right in ALL {
            let step = left.step_from(right);
            assert!(step.num == 1 || step.den == 1);
            assert_eq!(step.num * left.scale().num, right.scale().num * step.den);
            let plan = left.combine(right);
            assert_eq!(plan.unit, left);
            assert_eq!(plan.factor, step);
        }
    }
    assert_eq!(TimeUnit::Minutes.step_from(TimeUnit::Days), Ratio { num: 1440, den: 1 });
    assert_eq!(TimeUnit::Years.step_from(TimeUnit::Hours), Ratio { num: 1, den: 8760 });
}

#[test]
fn time_scales_in_seconds() {
    assert_eq!(TimeUnit::Seconds.scale(), Ratio { num: 1, den: 1 });
    assert_eq!(TimeUnit::Minutes.scale(), Ratio { num: 60, den: 1 });
    assert_eq!(TimeUnit::Hours.scale(), Ratio { num: 3600, den: 1 });
    assert_eq!(TimeUnit::Days.scale(), Ratio { num: SECONDS_PER_DAY, den: 1 });
    assert_eq!(TimeUnit::Years.scale(), Ratio { num: SECONDS_PER_YEAR, den: 1 });
    assert_eq!(SECONDS_PER_YEAR, 365 * SECONDS_PER_DAY);
    assert_eq!(TimeUnit::Hours.ratio_to(TimeUnit::Minutes), Ratio { num: 3600, den: 60 });
}

#[test]
fn time_base_and_text() {
    assert_eq!(TimeUnit::base(), TimeUnit::Seconds);
    assert!(TimeUnit::Seconds.is_base());
    assert!(!TimeUnit::Days.is_base());
    assert_eq!(TimeUnit::Seconds.suffix(), "s");
    assert_eq!(TimeUnit::Minutes.render("90"), "90 min");
    assert_eq!(TimeUnit::Hours.render("1.5"), "1.5 h");
    assert_eq!(TimeUnit::Days.render("2"), "2 d");
    assert_eq!(TimeUnit::Years.render("1"), "1 yr");
}

#[test]
fn time_round_trip_through_base() {
    for unit in ALL {
        let base = seconds((unit, 5.0));
        assert_eq!(apply(TimeUnit::Seconds.ratio_to(unit), base), 5.0);
        assert_eq!(seconds((TimeUnit::Seconds, base)), base);
    }
}
