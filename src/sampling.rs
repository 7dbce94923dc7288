//! Turning raw samples of the host into report values: disk aggregation,
//! network rates and the assembly of one report.
use crate::models::{unit_symbol, ByteInfo, ByteUnit, SystemReport};
use crate::utils::{format_bytes, format_rate, rate_symbol, rounded_scaled};
use vstd::prelude::*;
use vstd::string::*;

verus! {

/// What one disk reports: its capacity and the space still free, in bytes.
#[derive(Debug, Clone, Copy, PartialEq, Eq, Structural)]
pub struct DiskSpace {
    pub total: u64,
    pub available: u64,
}

/// The space of the counted disks, in bytes.
#[derive(Debug, Clone, Copy, PartialEq, Eq, Structural)]
pub struct DiskInfo {
    pub total: u64,
    pub used: u64,
}

/// Network throughput, in bytes per second.
#[derive(Debug, Clone, Copy, PartialEq, Eq, Structural)]
pub struct NetworkInfo {
    pub received: u64,
    pub transmitted: u64,
}

/// The used space of a disk; none where it reports more free than total.
pub open spec fn disk_used(d: DiskSpace) -> nat {
    if d.available <= d.total {
        (d.total - d.available) as nat
    } else {
        0
    }
}

/// Disk `i` is counted when no later disk reports the same capacity: disks
/// of equal capacity are taken for one filesystem seen through several
/// mounts, and the last one seen stands for them.
pub open spec fn counted(s: Seq<DiskSpace>, i: int) -> bool {
    forall|j: int| i < j < s.len() ==> #[trigger] s[j].total != s[i].total
}

/// The summed capacity of the counted disks among the first `n`.
pub open spec fn counted_total(s: Seq<DiskSpace>, n: nat) -> nat
    decreases n,
{
    if n == 0 {
        0
    } else {
        counted_total(s, (n - 1) as nat) + if counted(s, n - 1) {
            s[n - 1].total as nat
        } else {
            0
        }
    }
}

/// The summed used space of the counted disks among the first `n`.
pub open spec fn counted_used(s: Seq<DiskSpace>, n: nat) -> nat
    decreases n,
{
    if n == 0 {
        0
    } else {
        counted_used(s, (n - 1) as nat) + if counted(s, n - 1) {
            disk_used(s[n - 1])
        } else {
            0
        }
    }
}

/// `x`, or the largest `u64` where `x` is larger.
pub open spec fn cap_u64(x: nat) -> nat {
    if x <= u64::MAX {
        x
    } else {
        u64::MAX as nat
    }
}

/// Sums capacity and used space over the disks, each capacity counted once.
/// A sum beyond the range of `u64` stays at its largest value.
pub fn aggregate_disks(disks: &Vec<DiskSpace>) -> (r: DiskInfo)
    ensures
        r.total as nat == cap_u64(counted_total(disks@, disks@.len())),
        r.total as nat == cap_u64(set_sum(capacities(disks@))),
        r.used as nat == cap_u64(counted_used(disks@, disks@.len())),
{
    let n = disks.len();
    let mut total: u64 = 0;
    let mut used: u64 = 0;
    let mut i: usize = 0;
    while i < n
        invariant
            n == disks@.len(),
            i <= n,
            total as nat == cap_u64(counted_total(disks@, i as nat)),
            used as nat == cap_u64(counted_used(disks@, i as nat)),
        decreases n - i,
    {
        let d = disks[i];
        let mut last = true;
        let mut j: usize = i + 1;
        while j < n
            invariant
                n == disks@.len(),
                i < j <= n,
                d == disks@[i as int],
                last == forall|k: int| i < k < j ==> #[trigger] disks@[k].total != d.total,
            decreases n - j,
        {
            if disks[j].total == d.total {
                last = false;
            }
            j = j + 1;
        }
        if last {
            let u = if d.available <= d.total {
                d.total - d.available
            } else {
                0
            };
            total = total.saturating_add(d.total);
            used = used.saturating_add(u);
        }
        i = i + 1;
    }
    proof {
        lemma_counted_total_is_distinct_sum(disks@);
    }
    DiskInfo { total, used }
}

/// Bytes per second from a counter that went from `prev` to `cur` in
/// `elapsed_ms` milliseconds: none where no time passed or the counter went
/// back, rounded down, and at most the largest `u64`.
pub open spec fn rate(prev: nat, cur: nat, elapsed_ms: nat) -> nat {
    if elapsed_ms == 0 || cur < prev {
        0
    } else {
        cap_u64(((cur - prev) * 1000) as nat / elapsed_ms)
    }
}

/// The milliseconds from `then` to `now`; none where the clock went back.
pub open spec fn elapsed(then: nat, now: nat) -> nat {
    if now > then {
        (now - then) as nat
    } else {
        0
    }
}

fn rate_of(prev: u64, cur: u64, elapsed_ms: u64) -> (r: u64)
    ensures
        r as nat == rate(prev as nat, cur as nat, elapsed_ms as nat),
{
    if elapsed_ms == 0 || cur < prev {
        return 0;
    }
    let delta = (cur - prev) as u128;
    proof {
        assert(delta * 1000 <= u64::MAX as u128 * 1000) by (nonlinear_arith)
            requires
                delta <= u64::MAX,
        ;
    }
    let per_second = delta * 1000 / (elapsed_ms as u128);
    if per_second > u64::MAX as u128 {
        u64::MAX
    } else {
        per_second as u64
    }
}

/// The network counters of the previous sample and when it was taken.
#[derive(Debug, Clone, Copy, PartialEq, Eq, Structural)]
pub struct NetworkTracker {
    pub last_check_ms: u64,
    pub last_received: u64,
    pub last_transmitted: u64,
}

impl NetworkTracker {
    /// A tracker whose previous sample is the one given.
    pub fn new(now_ms: u64, received: u64, transmitted: u64) -> (r: NetworkTracker)
        ensures
            r == (NetworkTracker {
                last_check_ms: now_ms,
                last_received: received,
                last_transmitted: transmitted,
            }),
    {
        NetworkTracker { last_check_ms: now_ms, last_received: received, last_transmitted: transmitted }
    }

    /// The rates since the previous sample, given the cumulative counters
    /// read at `now_ms`; the new sample becomes the previous one.
    pub fn update(&mut self, now_ms: u64, received: u64, transmitted: u64) -> (r: NetworkInfo)
        ensures
            r.received as nat == rate(
                old(self).last_received as nat,
                received as nat,
                elapsed(old(self).last_check_ms as nat, now_ms as nat),
            ),
            r.transmitted as nat == rate(
                old(self).last_transmitted as nat,
                transmitted as nat,
                elapsed(old(self).last_check_ms as nat, now_ms as nat),
            ),
            *final(self) == (NetworkTracker {
                last_check_ms: now_ms,
                last_received: received,
                last_transmitted: transmitted,
            }),
    {
        let elapsed_ms: u64 = if now_ms > self.last_check_ms {
            now_ms - self.last_check_ms
        } else {
            0
        };
        let info = NetworkInfo {
            received: rate_of(self.last_received, received, elapsed_ms),
            transmitted: rate_of(self.last_transmitted, transmitted, elapsed_ms),
        };
        self.last_check_ms = now_ms;
        self.last_received = received;
        self.last_transmitted = transmitted;
        info
    }
}

/// Rates over a positive interval are the counter differences divided by the
/// interval, in bytes per second rounded down; over an empty interval both
/// are zero.
pub proof fn lemma_network_rates(rx0: nat, tx0: nat, rx1: nat, tx1: nat, t0: nat, t1: nat)
    requires
        rx0 <= rx1,
        tx0 <= tx1,
        (rx1 - rx0) * 1000 <= u64::MAX,
        (tx1 - tx0) * 1000 <= u64::MAX,
    ensures
        t1 > t0 ==> rate(rx0, rx1, elapsed(t0, t1)) == (rx1 - rx0) * 1000 / (t1 - t0),
        t1 > t0 ==> rate(tx0, tx1, elapsed(t0, t1)) == (tx1 - tx0) * 1000 / (t1 - t0),
        t1 == t0 ==> rate(rx0, rx1, elapsed(t0, t1)) == 0,
        t1 == t0 ==> rate(tx0, tx1, elapsed(t0, t1)) == 0,
{
    if t1 > t0 {
        let d = t1 - t0;
        let a = (rx1 - rx0) * 1000;
        let b = (tx1 - tx0) * 1000;
        assert(a / d <= a) by (nonlinear_arith)
            requires
                d > 0,
                a >= 0,
        ;
        assert(b / d <= b) by (nonlinear_arith)
            requires
                d > 0,
                b >= 0,
        ;
    }
}

/// A processor load given in tenths of a percent, shown with one
/// fractional digit.
pub fn format_percent(tenths: u64) -> (r: ByteInfo)
    ensures
        r@ == (tenths as u128, seq!['%'], 1usize),
{
    proof { reveal_strlit("%"); }
    ByteInfo { scaled: tenths as u128, unit: String::from_str("%"), precision: 1 }
}

/// The view of a byte count formatted in `unit` with two fractional digits.
pub open spec fn bytes_view(bytes: u64, unit: ByteUnit) -> (u128, Seq<char>, usize) {
    (rounded_scaled(bytes as nat, unit, 2) as u128, unit_symbol(unit), 2usize)
}

/// The view of a rate formatted in `unit` per second with two fractional
/// digits.
pub open spec fn rate_view(bytes_per_second: u64, unit: ByteUnit) -> (u128, Seq<char>, usize) {
    (rounded_scaled(bytes_per_second as nat, unit, 2) as u128, rate_symbol(unit), 2usize)
}

/// Assembles one complete report from the raw samples: memory in
/// `memory_unit`, disks in `storage_unit`, rates in `network_unit` per second.
pub fn build_report(
    total_memory: u64,
    used_memory: u64,
    disk: DiskInfo,
    cpu_tenths: u64,
    network: NetworkInfo,
    memory_unit: ByteUnit,
    storage_unit: ByteUnit,
    network_unit: ByteUnit,
) -> (r: SystemReport)
    ensures
        r@ == seq![
            bytes_view(total_memory, memory_unit),
            bytes_view(used_memory, memory_unit),
            bytes_view(disk.total, storage_unit),
            bytes_view(disk.used, storage_unit),
            (cpu_tenths as u128, seq!['%'], 1usize),
            rate_view(network.received, network_unit),
            rate_view(network.transmitted, network_unit),
        ],
{
    SystemReport {
        ram_total: format_bytes(total_memory, memory_unit),
        ram_usage: format_bytes(used_memory, memory_unit),
        disk_total: format_bytes(disk.total, storage_unit),
        disk_usage: format_bytes(disk.used, storage_unit),
        cpu_usage: format_percent(cpu_tenths),
        network_received: format_rate(network.received, network_unit),
        network_transmitted: format_rate(network.transmitted, network_unit),
    }
}

} // verus!

verus! {

/// The received counters of the first `n` interfaces, summed.
pub open spec fn received_sum(s: Seq<(u64, u64)>, n: nat) -> nat
    decreases n,
{
    if n == 0 {
        0
    } else {
        received_sum(s, (n - 1) as nat) + s[n - 1].0 as nat
    }
}

/// The transmitted counters of the first `n` interfaces, summed.
pub open spec fn transmitted_sum(s: Seq<(u64, u64)>, n: nat) -> nat
    decreases n,
{
    if n == 0 {
        0
    } else {
        transmitted_sum(s, (n - 1) as nat) + s[n - 1].1 as nat
    }
}

/// Sums the cumulative `(received, transmitted)` counters of every network
/// interface; a sum beyond the range of `u64` stays at its largest value.
pub fn sum_counters(interfaces: &Vec<(u64, u64)>) -> (r: (u64, u64))
    ensures
        r.0 as nat == cap_u64(received_sum(interfaces@, interfaces@.len())),
        r.1 as nat == cap_u64(transmitted_sum(interfaces@, interfaces@.len())),
{
    let n = interfaces.len();
    let mut received: u64 = 0;
    let mut transmitted: u64 = 0;
    let mut i: usize = 0;
    while i < n
        invariant
            n == interfaces@.len(),
            i <= n,
            received as nat == cap_u64(received_sum(interfaces@, i as nat)),
            transmitted as nat == cap_u64(transmitted_sum(interfaces@, i as nat)),
        decreases n - i,
    {
        let (rx, tx) = interfaces[i];
        received = received.saturating_add(rx);
        transmitted = transmitted.saturating_add(tx);
        i = i + 1;
    }
    (received, transmitted)
}

/// The capacities that the disks report, each once.
pub open spec fn capacities(s: Seq<DiskSpace>) -> Set<u64> {
    Set::new(|t: u64| exists|i: int| 0 <= i < s.len() && s[i].total == t)
}

/// The sum of a finite set of capacities.
pub open spec fn set_sum(t: Set<u64>) -> nat
    decreases t.len(),
{
    if t.finite() && t.len() > 0 {
        let x = t.choose();
        x as nat + set_sum(t.remove(x))
    } else {
        0
    }
}

/// Taking any one element out of a finite set leaves the rest of its sum.
pub proof fn lemma_set_sum_remove(t: Set<u64>, y: u64)
    requires
        t.finite(),
        t.contains(y),
    ensures
        set_sum(t) == y as nat + set_sum(t.remove(y)),
    decreases t.len(),
{
    let x = t.choose();
    assert(t.len() > 0);
    if x != y {
        lemma_set_sum_remove(t.remove(x), y);
        lemma_set_sum_remove(t.remove(y), x);
        assert(t.remove(x).remove(y) =~= t.remove(y).remove(x));
    }
}

/// Disk `i + 1` of a list is counted exactly when disk `i` of the list
/// without its first disk is.
proof fn lemma_counted_shift(s: Seq<DiskSpace>, i: int)
    requires
        s.len() > 0,
        0 <= i < s.len() - 1,
    ensures
        counted(s, i + 1) == counted(s.drop_first(), i),
{
    let t = s.drop_first();
    if counted(s, i + 1) {
        assert forall|j: int| i < j < t.len() implies #[trigger] t[j].total != t[i].total by {
            assert(t[j] == s[j + 1]);
        }
    }
    if counted(t, i) {
        assert forall|j: int| i + 1 < j < s.len() implies #[trigger] s[j].total != s[i + 1].total by {
            assert(s[j] == t[j - 1]);
        }
    }
}

/// The counted total of the first `n + 1` disks splits into the first disk
/// and the counted total of the first `n` of the others.
proof fn lemma_counted_total_first(s: Seq<DiskSpace>, n: nat)
    requires
        n + 1 <= s.len(),
    ensures
        counted_total(s, n + 1) == (if counted(s, 0) {
            s[0].total as nat
        } else {
            0
        }) + counted_total(s.drop_first(), n),
    decreases n,
{
    let t = s.drop_first();
    assert(counted_total(s, n + 1) == counted_total(s, n) + if counted(s, n as int) {
        s[n as int].total as nat
    } else {
        0
    });
    if n > 0 {
        lemma_counted_total_first(s, (n - 1) as nat);
        lemma_counted_shift(s, n - 1);
        assert(t[n - 1] == s[n as int]);
        assert(counted_total(t, n) == counted_total(t, (n - 1) as nat) + if counted(t, n - 1) {
            t[n - 1].total as nat
        } else {
            0
        });
    } else {
        assert(counted_total(s, 0) == 0);
        assert(counted_total(t, 0) == 0);
    }
}

/// The counted capacities of a list sum to the sum of its distinct
/// capacities.
proof fn lemma_counted_total_is_distinct_sum(s: Seq<DiskSpace>)
    ensures
        capacities(s).finite(),
        counted_total(s, s.len()) == set_sum(capacities(s)),
    decreases s.len(),
{
    if s.len() == 0 {
        assert(capacities(s) =~= Set::empty());
    } else {
        let t = s.drop_first();
        let x = s[0].total;
        lemma_counted_total_is_distinct_sum(t);
        lemma_counted_total_first(s, (s.len() - 1) as nat);
        assert(capacities(s) =~= capacities(t).insert(x)) by {
            assert forall|v: u64| capacities(s).contains(v) implies capacities(t).insert(x).contains(v) by {
                let i = choose|i: int| 0 <= i < s.len() && s[i].total == v;
                if i > 0 {
                    assert(t[i - 1].total == v);
                }
            }
            assert forall|v: u64| capacities(t).contains(v) implies capacities(s).contains(v) by {
                let i = choose|i: int| 0 <= i < t.len() && t[i].total == v;
                assert(s[i + 1].total == v);
            }
            assert(s[0].total == x);
        }
        if capacities(t).contains(x) {
            let j = choose|j: int| 0 <= j < t.len() && t[j].total == x;
            assert(s[j + 1].total == x);
            assert(!counted(s, 0));
            assert(capacities(t).insert(x) =~= capacities(t));
        } else {
            assert forall|j: int| 0 < j < s.len() implies #[trigger] s[j].total != s[0].total by {
                assert(t[j - 1] == s[j]);
                if s[j].total == x {
                    assert(capacities(t).contains(x));
                }
            }
            lemma_set_sum_remove(capacities(t).insert(x), x);
            assert(capacities(t).insert(x).remove(x) =~= capacities(t));
        }
    }
}

/// Disk aggregation counts each capacity once: the total is the sum of the
/// distinct capacities the disks report (capped at the largest `u64`), so
/// two lists that report the same capacities, in any order and with any
/// repetition, give the same total; no disks give nothing.
pub proof fn lemma_disk_total_distinct(s: Seq<DiskSpace>, s2: Seq<DiskSpace>)
    requires
        capacities(s) == capacities(s2),
    ensures
        cap_u64(counted_total(s, s.len())) == cap_u64(set_sum(capacities(s))),
        counted_total(s, s.len()) == counted_total(s2, s2.len()),
        s.len() == 0 ==> counted_total(s, s.len()) == 0 && counted_used(s, s.len()) == 0,
{
    lemma_counted_total_is_distinct_sum(s);
    lemma_counted_total_is_distinct_sum(s2);
}

} // verus!
