//! The shared telemetry state: the latest fetched values and the section
//! selected for display.

use vstd::prelude::*;
use crate::section::{DisplaySection, DEFAULT_SECTION};

verus! {

/// The most recently fetched value of each telemetry field.
#[derive(Debug, PartialEq, Eq)]
pub struct TelemetrySnapshot {
    /// Account balance, in lamports.
    pub balance: u64,
    /// Latest slot of the network.
    pub slot: u64,
    /// Transactions per second.
    pub tps: u64,
    /// Price of one SOL, in US cents.
    pub price_cents: u64,
    /// Date of the last clock reading, `year-MM-DD`.
    pub date: String,
    /// Time of the last clock reading, `HH:MM:SS`.
    pub time: String,
}

/// A new value for one field, or one pair of fields fetched together.
#[derive(Debug, PartialEq, Eq)]
pub enum FieldUpdate {
    Balance(u64),
    Throughput { slot: u64, tps: u64 },
    Price(u64),
    Clock { date: String, time: String },
}

/// The snapshot after one update: that field changes, no other.
pub open spec fn applied(s: TelemetrySnapshot, u: FieldUpdate) -> TelemetrySnapshot {
    match u {
        FieldUpdate::Balance(b) => TelemetrySnapshot { balance: b, ..s },
        FieldUpdate::Throughput { slot, tps } => TelemetrySnapshot { slot, tps, ..s },
        FieldUpdate::Price(p) => TelemetrySnapshot { price_cents: p, ..s },
        FieldUpdate::Clock { date, time } => TelemetrySnapshot { date, time, ..s },
    }
}

/// The snapshot before anything was fetched.
pub open spec fn initial_snapshot(s: TelemetrySnapshot) -> bool {
    &&& s.balance == 0
    &&& s.slot == 0
    &&& s.tps == 0
    &&& s.price_cents == 0
    &&& s.date@.len() == 0
    &&& s.time@.len() == 0
}

impl TelemetrySnapshot {
    /// All values zero, the clock unknown.
    pub fn new() -> (r: Self)
        ensures
            initial_snapshot(r),
    {
        TelemetrySnapshot {
            balance: 0,
            slot: 0,
            tps: 0,
            price_cents: 0,
            date: String::new(),
            time: String::new(),
        }
    }

    /// A copy of every field.
    pub fn copy(&self) -> (r: Self)
        ensures
            r == *self,
    {
        TelemetrySnapshot {
            balance: self.balance,
            slot: self.slot,
            tps: self.tps,
            price_cents: self.price_cents,
            date: self.date.clone(),
            time: self.time.clone(),
        }
    }
}

/// The selected section and the snapshot, reached only through its
/// methods; each of them changes one logical unit.
pub struct SnapshotStore {
    section: DisplaySection,
    snapshot: TelemetrySnapshot,
}

impl View for SnapshotStore {
    type V = (DisplaySection, TelemetrySnapshot);

    closed spec fn view(&self) -> (DisplaySection, TelemetrySnapshot) {
        (self.section, self.snapshot)
    }
}

impl SnapshotStore {
    /// The default section and nothing fetched yet.
    pub fn new() -> (r: Self)
        ensures
            r@.0 == DEFAULT_SECTION,
            initial_snapshot(r@.1),
    {
        SnapshotStore { section: DEFAULT_SECTION, snapshot: TelemetrySnapshot::new() }
    }

    /// The section and a copy of the snapshot.
    pub fn read(&self) -> (r: (DisplaySection, TelemetrySnapshot))
        ensures
            r == self@,
    {
        (self.section, self.snapshot.copy())
    }

    /// Selects the section to display; the snapshot stays.
    pub fn set_section(&mut self, section: DisplaySection)
        ensures
            final(self)@ == (section, old(self)@.1),
    {
        self.section = section;
    }

    /// Writes one field of the snapshot; the section and the other fields
    /// stay.
    pub fn update_field(&mut self, update: FieldUpdate)
        ensures
            final(self)@ == (old(self)@.0, applied(old(self)@.1, update)),
    {
        match update {
            FieldUpdate::Balance(b) => {
                self.snapshot.balance = b;
            },
            FieldUpdate::Throughput { slot, tps } => {
                self.snapshot.slot = slot;
                self.snapshot.tps = tps;
            },
            FieldUpdate::Price(p) => {
                self.snapshot.price_cents = p;
            },
            FieldUpdate::Clock { date, time } => {
                self.snapshot.date = date;
                self.snapshot.time = time;
            },
        }
    }
}

} // verus!
