use system_monitor::sampling::{aggregate_disks, sum_counters, DiskSpace, NetworkTracker};

#[test]
fn disks_of_equal_capacity_count_once() {
    let disks = vec![
        DiskSpace { total: 100, available: 40 },
        DiskSpace { total: 100, available: 30 },
        DiskSpace { total: 200, available: 50 },
    ];
    let info = aggregate_disks(&disks);
    assert_eq!(info.total, 300);
    // the last disk of each capacity stands for the others
    assert_eq!(info.used, 70 + 150);
}

#[test]
fn no_disks_give_nothing() {
    let info = aggregate_disks(&vec![]);
    assert_eq!(info.total, 0);
    assert_eq!(info.used, 0);
}

#[test]
fn disk_sums_saturate() {
    let disks = vec![
        DiskSpace { total: u64::MAX, available: 0 },
        DiskSpace { total: 5, available: 10 },
    ];
    let info = aggregate_disks(&disks);
    assert_eq!(info.total, u64::MAX);
    assert_eq!(info.used, u64::MAX);
}

#[test]
fn network_rates_over_an_interval() {
    let mut t = NetworkTracker::new(1_000, 10_000, 2_000);
    let info = t.update(3_000, 30_000, 2_500);
    assert_eq!(info.received, 10_000);
    assert_eq!(info.transmitted, 250);
    assert_eq!(t.last_check_ms, 3_000);
    assert_eq!(t.last_received, 30_000);
    assert_eq!(t.last_transmitted, 2_500);
}

#[test]
fn network_rates_zero_without_elapsed_time() {
    let mut t = NetworkTracker::new(5_000, 10, 10);
    let info = t.update(5_000, 1_000, 1_000);
    assert_eq!(info.received, 0);
    assert_eq!(info.transmitted, 0);
    let info = t.update(4_000, 2_000, 2_000);
    assert_eq!(info.received, 0);
    assert_eq!(info.transmitted, 0);
}

#[test]
fn network_counter_going_back_gives_zero() {
    let mut t = NetworkTracker::new(0, 1_000, 1_000);
    let info = t.update(1_000, 10, 3_000);
    assert_eq!(info.received, 0);
    assert_eq!(info.transmitted, 2_000);
}

#[test]
fn disk_total_ignores_order_and_repetition() {
    let d = |total: u64| DiskSpace { total, available: 0 };
    let a = aggregate_disks(&vec![d(100), d(100), d(200)]);
    let b = aggregate_disks(&vec![d(200), d(100)]);
    let c = aggregate_disks(&vec![d(100), d(200), d(200), d(100)]);
    assert_eq!(a.total, 300);
    assert_eq!(b.total, 300);
    assert_eq!(c.total, 300);
}

#[test]
fn interface_counters_are_summed() {
    assert_eq!(sum_counters(&vec![(10, 1), (20, 2), (30, 3)]), (60, 6));
    assert_eq!(sum_counters(&vec![]), (0, 0));
    assert_eq!(sum_counters(&vec![(u64::MAX, 1), (1, 1)]), (u64::MAX, 2));
}
