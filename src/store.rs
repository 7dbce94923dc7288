//! The single-slot store that hands the latest report from the sampler to
//! the publisher.
use crate::models::SystemReport;
use std::sync::Arc;
use vstd::prelude::*;
use vstd::rwlock::RwLock;

verus! {

/// A report together with the time it was stored.
#[derive(Debug)]
pub struct SystemReportEntry {
    pub report: SystemReport,
    /// Milliseconds since the Unix epoch.
    pub timestamp: i64,
}

impl View for SystemReportEntry {
    type V = (Seq<(u128, Seq<char>, usize)>, i64);

    open spec fn view(&self) -> (Seq<(u128, Seq<char>, usize)>, i64) {
        (self.report@, self.timestamp)
    }
}

impl Clone for SystemReportEntry {
    fn clone(&self) -> (r: SystemReportEntry)
        ensures
            r@ == self@,
    {
        SystemReportEntry { report: self.report.clone(), timestamp: self.timestamp }
    }
}

/// The abstract content of a slot: the entry held, if any.
pub type SlotView = Option<(Seq<(u128, Seq<char>, usize)>, i64)>;

/// The content of a slot after a write of `e`: the old content is gone.
pub open spec fn slot_after_update(s: SlotView, e: (Seq<(u128, Seq<char>, usize)>, i64)) -> SlotView {
    Some(e)
}

/// What a read of a slot returns.
pub open spec fn slot_read(s: SlotView) -> SlotView {
    s
}

/// The content of a fresh slot.
pub open spec fn slot_empty() -> SlotView {
    None
}

/// The view of an optional entry.
pub open spec fn entry_option_view(o: Option<SystemReportEntry>) -> SlotView {
    match o {
        Some(e) => Some(e@),
        None => None,
    }
}

/// Holds at most one entry: the one written last.
#[derive(Debug)]
pub struct ReportSlot {
    latest: Option<SystemReportEntry>,
}

impl View for ReportSlot {
    type V = SlotView;

    closed spec fn view(&self) -> SlotView {
        entry_option_view(self.latest)
    }
}

impl ReportSlot {
    /// An empty slot.
    pub fn new() -> (r: ReportSlot)
        ensures
            r@ == slot_empty(),
    {
        ReportSlot { latest: None }
    }

    /// Replaces whatever the slot held by `entry`.
    pub fn update(&mut self, entry: SystemReportEntry)
        ensures
            final(self)@ == slot_after_update(old(self)@, entry@),
    {
        self.latest = Some(entry);
    }

    /// A copy of the entry held, if any.
    pub fn get_latest(&self) -> (r: Option<SystemReportEntry>)
        ensures
            entry_option_view(r) == slot_read(self@),
    {
        match &self.latest {
            Some(e) => Some(e.clone()),
            None => None,
        }
    }

    /// Whether the slot holds an entry.
    pub fn has_report(&self) -> (r: bool)
        ensures
            r == (self@ is Some),
    {
        self.latest.is_some()
    }

    /// Empties the slot.
    pub fn clear(&mut self)
        ensures
            final(self)@ == slot_empty(),
    {
        self.latest = None;
    }
}

/// Reading a slot that was never written gives nothing; a read right after
/// a write gives the entry written; after two writes a read gives the second
/// entry, whatever the first was.
pub proof fn lemma_slot_last_write_wins(
    s: SlotView,
    e1: (Seq<(u128, Seq<char>, usize)>, i64),
    e2: (Seq<(u128, Seq<char>, usize)>, i64),
)
    ensures
        slot_read(slot_empty()) is None,
        slot_read(slot_after_update(s, e1)) == Some(e1),
        slot_read(slot_after_update(slot_after_update(s, e1), e2)) == Some(e2),
{
}

/// The lock's invariant on the slot: any slot value may be stored; what the
/// lock adds is that each write replaces the value whole.
pub struct AnySlot;

impl vstd::rwlock::RwLockPredicate<ReportSlot> for AnySlot {
    open spec fn inv(self, v: ReportSlot) -> bool {
        true
    }
}

/// The shared store: one slot behind a reader-writer lock, so that a read
/// sees either nothing or a whole entry that one write put there. Clones
/// share the slot.
#[derive(Clone)]
pub struct SystemReportStore {
    storage: Arc<RwLock<ReportSlot, AnySlot>>,
}

impl SystemReportStore {
    /// A store with an empty slot.
    pub fn new() -> (r: SystemReportStore) {
        let slot = ReportSlot::new();
        SystemReportStore { storage: Arc::new(RwLock::new(slot, Ghost(AnySlot))) }
    }

    /// Replaces the stored report by `report`, stamped with `timestamp_ms`,
    /// the time of the sample in milliseconds since the Unix epoch.
    pub fn update(&self, report: SystemReport, timestamp_ms: i64) {
        let entry = SystemReportEntry { report, timestamp: timestamp_ms };
        let (mut slot, handle) = self.storage.acquire_write();
        slot.update(entry);
        handle.release_write(slot);
    }

    /// A copy of the latest entry, if a report was ever stored.
    pub fn get_latest(&self) -> (r: Option<SystemReportEntry>) {
        let handle = self.storage.acquire_read();
        let r = handle.borrow().get_latest();
        handle.release_read();
        r
    }

    /// Whether a report is stored.
    pub fn has_report(&self) -> (r: bool) {
        let handle = self.storage.acquire_read();
        let r = handle.borrow().has_report();
        handle.release_read();
        r
    }

    /// Empties the store.
    pub fn clear(&self) {
        let (mut slot, handle) = self.storage.acquire_write();
        slot.clear();
        handle.release_write(slot);
    }
}

} // verus!
