use system_monitor::models::ByteUnit;
use system_monitor::sampling::{build_report, DiskInfo, NetworkInfo};
use system_monitor::store::{ReportSlot, SystemReportEntry, SystemReportStore};

fn report(ram_used: u64) -> system_monitor::models::SystemReport {
    build_report(
        1u64 << 31,
        ram_used,
        DiskInfo { total: 100, used: 50 },
        10,
        NetworkInfo { received: 0, transmitted: 0 },
        ByteUnit::Gigabyte,
        ByteUnit::Byte,
        ByteUnit::Kilobyte,
    )
}

#[test]
fn store_starts_empty() {
    let store = SystemReportStore::new();
    assert!(store.get_latest().is_none());
    assert!(!store.has_report());
}

#[test]
fn store_returns_last_update() {
    let store = SystemReportStore::new();
    store.update(report(1 << 30), 1_000);
    let got = store.get_latest().unwrap();
    assert_eq!(got.report.ram_usage.scaled, 100);
    assert!(store.has_report());
    store.update(report(1 << 29), 2_000);
    let got = store.get_latest().unwrap();
    assert_eq!(got.report.ram_usage.scaled, 50);
    assert_eq!(got.timestamp, 2_000);
    assert_eq!(got.report.to_json(), report(1 << 29).to_json());
}

#[test]
fn store_clones_share_the_slot() {
    let store = SystemReportStore::new();
    let writer = store.clone();
    writer.update(report(1 << 30), 3_000);
    assert!(store.has_report());
    store.clear();
    assert!(writer.get_latest().is_none());
}

#[test]
fn slot_keeps_only_the_last_entry() {
    let mut slot = ReportSlot::new();
    assert!(slot.get_latest().is_none());
    slot.update(SystemReportEntry { report: report(1 << 30), timestamp: 1 });
    assert_eq!(slot.get_latest().unwrap().timestamp, 1);
    slot.update(SystemReportEntry { report: report(1 << 29), timestamp: 2 });
    let got = slot.get_latest().unwrap();
    assert_eq!(got.timestamp, 2);
    assert_eq!(got.report.ram_usage.scaled, 50);
    slot.clear();
    assert!(!slot.has_report());
}
