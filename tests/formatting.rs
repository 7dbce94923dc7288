use system_monitor::models::{ByteInfo, ByteUnit, SystemReport};
use system_monitor::sampling::{build_report, format_percent, DiskInfo, NetworkInfo};
use system_monitor::utils::{
    format_bytes, format_bytes_with_precision, format_rate, format_rate_with_precision,
};

#[test]
fn parse_known_units() {
    assert_eq!(ByteUnit::parse("KB"), ByteUnit::Kilobyte);
    assert_eq!(ByteUnit::parse("MB"), ByteUnit::Megabyte);
    assert_eq!(ByteUnit::parse("GB"), ByteUnit::Gigabyte);
    assert_eq!(ByteUnit::parse("TB"), ByteUnit::Terabyte);
    assert_eq!(ByteUnit::parse("PB"), ByteUnit::Petabyte);
    assert_eq!(ByteUnit::parse("B"), ByteUnit::Byte);
}

#[test]
fn parse_unknown_unit_falls_back_to_bytes() {
    assert_eq!(ByteUnit::parse("gb"), ByteUnit::Byte);
    assert_eq!(ByteUnit::parse(""), ByteUnit::Byte);
    assert_eq!(ByteUnit::parse("KiB"), ByteUnit::Byte);
}

#[test]
fn unit_sizes_and_symbols() {
    assert_eq!(ByteUnit::Byte.to_bytes(), 1);
    assert_eq!(ByteUnit::Kilobyte.to_bytes(), 1024);
    assert_eq!(ByteUnit::Gigabyte.to_bytes(), 1 << 30);
    assert_eq!(ByteUnit::Petabyte.to_bytes(), 1 << 50);
    assert_eq!(ByteUnit::Megabyte.to_string(), "MB");
    assert_eq!(ByteUnit::Byte.to_string(), "B");
}

#[test]
fn format_two_gigabytes() {
    let info = format_bytes(1u64 << 31, ByteUnit::Gigabyte);
    assert_eq!(info.scaled, 200);
    assert_eq!(info.unit, "GB");
    assert_eq!(info.precision, 2);
    assert_eq!(info.value_string(), "2.00");
}

#[test]
fn format_rounds_half_up() {
    // 1536 bytes is 1.5 KB
    let info = format_bytes_with_precision(1536, ByteUnit::Kilobyte, 0);
    assert_eq!(info.scaled, 2);
    assert_eq!(info.value_string(), "2");
    // 1000 bytes is 0.9765625 KB
    let info = format_bytes_with_precision(1000, ByteUnit::Kilobyte, 3);
    assert_eq!(info.scaled, 977);
    assert_eq!(info.value_string(), "0.977");
}

#[test]
fn format_matches_rounding_formula() {
    for &(bytes, unit, precision) in &[
        (123_456_789u64, ByteUnit::Megabyte, 2usize),
        (5u64, ByteUnit::Byte, 4usize),
        (u64::MAX, ByteUnit::Byte, 18usize),
        (0u64, ByteUnit::Terabyte, 2usize),
        (999_999u64, ByteUnit::Kilobyte, 1usize),
    ] {
        let info = format_bytes_with_precision(bytes, unit, precision);
        let size = unit.to_bytes() as u128;
        let expected = (2 * bytes as u128 * 10u128.pow(precision as u32) + size) / (2 * size);
        assert_eq!(info.scaled, expected);
        let approx = bytes as f64 / size as f64;
        let shown: f64 = info.value_string().parse().unwrap();
        assert!((shown - approx).abs() <= 0.5 * 10f64.powi(-(precision as i32)) + 1e-9 * approx);
    }
}

#[test]
fn format_rate_unit() {
    let info = format_rate(3 * 1024 * 1024 / 2, ByteUnit::Megabyte);
    assert_eq!(info.scaled, 150);
    assert_eq!(info.unit, "MB/s");
    assert_eq!(info.value_string(), "1.50");
    let info = format_rate_with_precision(512, ByteUnit::Kilobyte, 1);
    assert_eq!(info.unit, "KB/s");
    assert_eq!(info.value_string(), "0.5");
}

#[test]
fn value_string_pads_fraction() {
    let info = ByteInfo { scaled: 1005, unit: "GB".to_string(), precision: 3 };
    assert_eq!(info.value_string(), "1.005");
    let info = ByteInfo { scaled: 7, unit: "GB".to_string(), precision: 2 };
    assert_eq!(info.value_string(), "0.07");
}

#[test]
fn percent_has_one_digit() {
    let info = format_percent(123);
    assert_eq!(info.unit, "%");
    assert_eq!(info.value_string(), "12.3");
}

fn sample_report() -> SystemReport {
    build_report(
        1u64 << 31,
        1u64 << 30,
        DiskInfo { total: 500 * (1u64 << 30), used: 125 * (1u64 << 30) },
        457,
        NetworkInfo { received: 1 << 20, transmitted: 1 << 19 },
        ByteUnit::Gigabyte,
        ByteUnit::Gigabyte,
        ByteUnit::Megabyte,
    )
}

#[test]
fn report_json_end_to_end() {
    let json = sample_report().to_json();
    assert!(json.contains("\"ram_total\": 2.00"));
    assert!(json.contains("\"ram_usage\": 1.00"));
    assert_eq!(
        json,
        "{\n\"ram_total\": 2.00,\n\"ram_usage\": 1.00,\n\"disk_total\": 500.00,\n\"disk_usage\": 125.00,\n\"cpu_usage\": 45.7,\n\"network_received\": 1.00,\n\"network_transmitted\": 0.50\n}"
    );
}

#[test]
fn report_units() {
    let report = sample_report();
    assert_eq!(report.ram_total.unit, "GB");
    assert_eq!(report.disk_usage.unit, "GB");
    assert_eq!(report.network_received.unit, "MB/s");
    assert_eq!(report.cpu_usage.unit, "%");
}

#[test]
fn formatted_unit_is_the_canonical_symbol() {
    for (unit, symbol) in [
        (ByteUnit::Byte, "B"),
        (ByteUnit::Kilobyte, "KB"),
        (ByteUnit::Megabyte, "MB"),
        (ByteUnit::Gigabyte, "GB"),
        (ByteUnit::Terabyte, "TB"),
        (ByteUnit::Petabyte, "PB"),
    ] {
        for precision in [0usize, 2, 18] {
            assert_eq!(format_bytes_with_precision(12345, unit, precision).unit, symbol);
            assert_eq!(format_bytes_with_precision(12345, unit, precision).unit, unit.to_string());
        }
    }
}
