use multimeter_gui::numtext::push_decimal;
use multimeter_gui::sensor_data::{fmt_bytes, fmt_rpm, fmt_text, DiskInfo};

/// The size text as the float formatting of the standard library writes it.
fn float_reference(bytes: u64) -> String {
    const KIB: f64 = 1024.0;
    const MIB: f64 = KIB * 1024.0;
    const GIB: f64 = MIB * 1024.0;
    const TIB: f64 = GIB * 1024.0;
    let b = bytes as f64;
    if b >= TIB {
        format!("{:.1} TB", b / TIB)
    } else if b >= GIB {
        format!("{:.1} GB", b / GIB)
    } else if b >= MIB {
        format!("{:.1} MB", b / MIB)
    } else if b >= KIB {
        format!("{:.1} KB", b / KIB)
    } else {
        format!("{bytes} B")
    }
}

#[test]
fn decimal_digits() {
    let mut s = String::from("n=");
    push_decimal(&mut s, 0);
    assert_eq!(s, "n=0");
    let mut s = String::new();
    push_decimal(&mut s, 1234567890123);
    assert_eq!(s, "1234567890123");
}

#[test]
fn fmt_text_present_and_absent() {
    assert_eq!(fmt_text(&Some("Charging".to_string())), "Charging");
    assert_eq!(fmt_text(&None), "---");
    assert_eq!(fmt_text(&Some(String::new())), "");
}

#[test]
fn fmt_rpm_values() {
    assert_eq!(fmt_rpm(None), "---");
    assert_eq!(fmt_rpm(Some(0)), "0");
    assert_eq!(fmt_rpm(Some(2450)), "2450");
    assert_eq!(fmt_rpm(Some(-7)), "-7");
    assert_eq!(fmt_rpm(Some(i32::MIN)), i32::MIN.to_string());
    assert_eq!(fmt_rpm(Some(i32::MAX)), i32::MAX.to_string());
}

#[test]
fn fmt_bytes_units() {
    assert_eq!(fmt_bytes(0), "0 B");
    assert_eq!(fmt_bytes(1023), "1023 B");
    assert_eq!(fmt_bytes(1024), "1.0 KB");
    assert_eq!(fmt_bytes(1536), "1.5 KB");
    assert_eq!(fmt_bytes(1_048_576), "1.0 MB");
    assert_eq!(fmt_bytes(1_073_741_824), "1.0 GB");
    assert_eq!(fmt_bytes(900_771_069_952), "838.9 GB");
    assert_eq!(fmt_bytes(1_099_511_627_776), "1.0 TB");
    assert_eq!(fmt_bytes(1_048_575), "1024.0 KB");
}

#[test]
fn fmt_bytes_ties_round_to_even() {
    // 1280 / 1024 = 1.25 exactly, written with one decimal.
    assert_eq!(fmt_bytes(1280), "1.2 KB");
    // 1792 / 1024 = 1.75 exactly.
    assert_eq!(fmt_bytes(1792), "1.8 KB");
    assert_eq!(fmt_bytes(1280), float_reference(1280));
    assert_eq!(fmt_bytes(1792), float_reference(1792));
}

#[test]
fn fmt_bytes_matches_float_formatting() {
    let mut samples: Vec<u64> = vec![
        u64::MAX,
        u64::MAX - 1,
        u64::MAX / 3,
        1 << 53,
        (1 << 53) + 1,
        (1 << 54) + 3,
        9_007_199_254_740_993,
        18_014_398_509_481_985,
        123_456_789_012_345_678,
    ];
    for shift in 0..64u32 {
        let base: u64 = 1u64 << shift;
        samples.push(base);
        samples.push(base.wrapping_sub(1));
        samples.push(base.wrapping_add(base / 2));
        samples.push(base.wrapping_add(base / 4));
        samples.push(base.wrapping_mul(5) / 4);
    }
    let mut x: u64 = 0x9E37_79B9_7F4A_7C15;
    for _ in 0..20000 {
        x ^= x << 13;
        x ^= x >> 7;
        x ^= x << 17;
        samples.push(x >> (x % 64));
    }
    for n in samples {
        assert_eq!(fmt_bytes(n), float_reference(n), "bytes = {n}");
    }
}

#[test]
fn used_space_saturates() {
    let mut disk = DiskInfo::default();
    disk.total_space = 1000;
    disk.available_space = 250;
    assert_eq!(disk.used_space(), 750);
    assert_eq!(disk.used_space() + disk.available_space, disk.total_space);
    disk.available_space = 2000;
    assert_eq!(disk.used_space(), 0);
}
