use unit_types::data::{BYTES_PER_KB, BYTES_PER_TIB};
use unit_types::{DataUnit, Ratio};

/// A magnitude multiplied by a scale factor, as a quantity type computes it.
fn apply(f: Ratio, x: f64) -> f64 {
    x * f.num as f64 / f.den as f64
}

/// A magnitude of `unit` in bytes.
fn bytes(unit: DataUnit, x: f64) -> f64 {
    apply(unit.scale(), x)
}

/// Two sizes are equal when their measures in bytes are closer than machine epsilon.
fn same_size(a: (DataUnit, f64), b: (DataUnit, f64)) -> bool {
    (bytes(a.0, a.1) - bytes(b.0, b.1)).abs() < f64::EPSILON
}

/// `a + b`, in `a`'s unit.
fn add(a: (DataUnit, f64), b: (DataUnit, f64)) -> (DataUnit, f64) {
    let plan = a.0.combine(b.0);
    (plan.unit, a.1 + apply(plan.factor, b.1))
}

/// `a - b`, in `a`'s unit.
fn sub(a: (DataUnit, f64), b: (DataUnit, f64)) -> (DataUnit, f64) {
    let plan = a.0.combine(b.0);
    (plan.unit, a.1 - apply(plan.factor, b.1))
}

#[test]
fn test_to_base() {
    let base = bytes(DataUnit::Kilobytes, 128.0);
    assert_eq!(base, 128.0 * BYTES_PER_KB as f64);
}

#[test]
fn test_from_base() {
    let as_kib = apply(DataUnit::Bytes.ratio_to(DataUnit::KiB), 1024.0);
    assert_eq!(DataUnit::KiB.canonical(), DataUnit::Kibibytes);
    assert_eq!(as_kib, 1.0);
}

#[test]
fn test_eq() {
    assert!(same_size((DataUnit::Bytes, 1024.0), (DataUnit::KiB, 1.0)));
}

#[test]
fn test_gt() {
    assert!(bytes(DataUnit::Kilobytes, 2048.0) > bytes(DataUnit::Megabytes, 2.0));
}

#[test]
fn test_lt() {
    assert!(bytes(DataUnit::Megabytes, 1000.0) < bytes(DataUnit::Gigabytes, 1.5));
}

#[test]
fn test_add_same_units() {
    let z = add((DataUnit::Megabytes, 1000.0), (DataUnit::Megabytes, 1000.0));
    assert!(same_size(z, (DataUnit::Megabytes, 2000.0)));
    assert_eq!(z, (DataUnit::Megabytes, 2000.0));
}

#[test]
fn test_add_different_units() {
    let z = add((DataUnit::Gibibytes, 1.0), (DataUnit::Mebibytes, 1024.0));
    assert!(same_size(z, (DataUnit::Mebibytes, 2048.0)));
    assert_eq!(z, (DataUnit::Gibibytes, 2.0));
}

#[test]
fn test_sub_same_units() {
    let z = sub((DataUnit::Gigabytes, 2.0), (DataUnit::Gigabytes, 1.0));
    assert!(same_size(z, (DataUnit::Gigabytes, 1.0)));
    assert_eq!(z, (DataUnit::Gigabytes, 1.0));
}

#[test]
fn test_sub_different_units() {
    let z = sub((DataUnit::Gibibytes, 2.0), (DataUnit::Mebibytes, 1024.0));
    assert!(same_size(z, (DataUnit::Gibibytes, 1.0)));
    assert_eq!(z, (DataUnit::Gibibytes, 1.0));
}

#[test]
fn test_display() {
    assert_eq!(DataUnit::Bytes.render(&format!("{}", 1024.0)), "1024 bytes");
    assert_eq!(DataUnit::Kilobytes.render(&format!("{}", 1.0)), "1 KB");
    assert_eq!(DataUnit::Megabytes.render(&format!("{}", 1.0)), "1 MB");
    assert_eq!(DataUnit::Gigabytes.render(&format!("{}", 1.0)), "1 GB");
    assert_eq!(DataUnit::Terabytes.render(&format!("{}", 1.0)), "1 TB");
    assert_eq!(DataUnit::Kibibytes.render(&format!("{}", 1.0)), "1 KiB");
    assert_eq!(DataUnit::Mebibytes.render(&format!("{}", 1.0)), "1 MiB");
    assert_eq!(DataUnit::Gibibytes.render(&format!("{}", 1.0)), "1 GiB");
    assert_eq!(DataUnit::Tebibytes.render(&format!("{}", 1.0)), "1 TiB");
}

#[test]
fn test_multiply_scalar() {
    let doubled = (DataUnit::GiB, 2.0 * 2.0);
    assert!(same_size(doubled, (DataUnit::MiB, 4096.0)));
    let doubled_2 = (DataUnit::GiB, 2.0 * 2.0);
    assert!(same_size(doubled_2, (DataUnit::MiB, 4096.0)));
}

#[test]
fn itest_data() {
    let x1 = (DataUnit::Gigabytes, 1.0);
    let x2 = (DataUnit::Megabytes, 1000.0);
    let x3 = (DataUnit::Gibibytes, 1.0);
    let x4 = (DataUnit::Mebibytes, 1024.0);

    let x5 = add(x1, x1);
    let x6 = add(x1, x2);
    assert!(same_size(x5, x6));
    assert_eq!(x5, (DataUnit::Gigabytes, 2.0));
    assert_eq!(x6, (DataUnit::Gigabytes, 2.0));

    let x7 = add(x3, x3);
    let x8 = add(x3, x4);
    assert!(same_size(x7, x8));
    assert_eq!(x7, (DataUnit::Gibibytes, 2.0));
    assert_eq!(x8, (DataUnit::Gibibytes, 2.0));
}

#[test]
fn itest_data_conversation() {
    let memory_in_mb = apply(DataUnit::GiB.ratio_to(DataUnit::MiB), 2.0);
    assert_eq!(memory_in_mb, 2048.0);
}

#[test]
fn data_scales_are_powers_of_1000_and_1024() {
    let expected: [(DataUnit, u64); 9] = [
        (DataUnit::Bytes, 1),
        (DataUnit::Kilobytes, 1000),
        (DataUnit::Megabytes, 1_000_000),
        (DataUnit::Gigabytes, 1_000_000_000),
        (DataUnit::Terabytes, 1_000_000_000_000),
        (DataUnit::Kibibytes, 1024),
        (DataUnit::Mebibytes, 1_048_576),
        (DataUnit::Gibibytes, 1_073_741_824),
        (DataUnit::Tebibytes, 1_099_511_627_776),
    ];
    for (unit, n) in expected {
        assert_eq!(unit.scale(), Ratio { num: n, den: 1 });
    }
    assert_eq!(DataUnit::TiB.scale().num, BYTES_PER_TIB);
}

#[test]
fn data_aliases_are_the_same_unit() {
    let pairs: [(DataUnit, DataUnit); 8] = [
        (DataUnit::KB, DataUnit::Kilobytes),
        (DataUnit::MB, DataUnit::Megabytes),
        (DataUnit::GB, DataUnit::Gigabytes),
        (DataUnit::TB, DataUnit::Terabytes),
        (DataUnit::KiB, DataUnit::Kibibytes),
        (DataUnit::MiB, DataUnit::Mebibytes),
        (DataUnit::GiB, DataUnit::Gibibytes),
        (DataUnit::TiB, DataUnit::Tebibytes),
    ];
    for (alias, long) in pairs {
        assert_eq!(alias.canonical(), long);
        assert_eq!(long.canonical(), long);
        assert_eq!(alias.scale(), long.scale());
        assert_eq!(alias.suffix(), long.suffix());
        assert_eq!(alias.combine(DataUnit::Bytes), long.combine(DataUnit::Bytes));
    }
    assert_eq!(DataUnit::KB.render("3"), "3 KB");
}

#[test]
fn data_base_unit() {
    assert_eq!(DataUnit::base(), DataUnit::Bytes);
    assert!(DataUnit::Bytes.is_base());
    assert!(!DataUnit::KB.is_base());
    assert_eq!(DataUnit::Bytes.scale(), Ratio { num: 1, den: 1 });
}

#[test]
fn data_ratio_between_units() {
    assert_eq!(DataUnit::GiB.ratio_to(DataUnit::MiB), Ratio { num: 1_073_741_824, den: 1_048_576 });
    assert_eq!(DataUnit::Bytes.ratio_to(DataUnit::KB), Ratio { num: 1, den: 1000 });
    assert_eq!(DataUnit::TB.ratio_to(DataUnit::TB), Ratio { num: 1_000_000_000_000, den: 1_000_000_000_000 });
}

#[test]
fn data_sum_takes_left_unit() {
    let all: [DataUnit; 9] = [
        DataUnit::Bytes,
        DataUnit::KB,
        DataUnit::Megabytes,
        DataUnit::GB,
        DataUnit::Terabytes,
        DataUnit::KiB,
        DataUnit::Mebibytes,
        DataUnit::GiB,
        DataUnit::TiB,
    ];
    for left in all {
        for right in all {
            let plan = left.combine(right);
            assert_eq!(plan.unit, left.canonical());
            assert_eq!(plan.factor, Ratio { num: right.scale().num, den: left.scale().num });
        }
    }
}

#[test]
fn data_round_trip_through_base() {
    let all: [DataUnit; 5] = [
        DataUnit::Kilobytes,
        DataUnit::Megabytes,
        DataUnit::Kibibytes,
        DataUnit::Gibibytes,
        DataUnit::Tebibytes,
    ];
    for unit in all {
        let base = bytes(unit, 3.0);
        let back = apply(DataUnit::Bytes.ratio_to(unit), base);
        assert_eq!(back, 3.0);
        let twice = bytes(DataUnit::Bytes, base);
        assert_eq!(twice, base);
    }
}

#[test]
fn cross_unit_equality_and_order() {
    assert!(same_size((DataUnit::Bytes, 1024.0), (DataUnit::Kibibytes, 1.0)));
    assert!(!same_size((DataUnit::Bytes, 1000.0), (DataUnit::Kibibytes, 1.0)));
    assert!(bytes(DataUnit::Kilobytes, 2048.0) > bytes(DataUnit::Megabytes, 2.0));
    assert_eq!(bytes(DataUnit::Kilobytes, 2048.0), 2_048_000.0);
    assert_eq!(bytes(DataUnit::Megabytes, 2.0), 2_000_000.0);
}
