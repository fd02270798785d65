//! The telemetry poller: what each fetched result, or its absence, writes
//! into the store.

use vstd::prelude::*;
use crate::display::{balance_frame, centred_text_op, Font, VALUE_Y};
use crate::render::{next_rendered, tick_ops, RenderedState};
use crate::retry::{fetch_run, lemma_retry_bound};
use crate::section::DisplaySection;
use crate::snapshot::{applied, FieldUpdate, SnapshotStore, TelemetrySnapshot};
use crate::text::{date_text, format_date, format_time, sol_text, time_text};

verus! {

/// Pause between two poll cycles, in milliseconds.
pub const POLL_INTERVAL_MS: u64 = 5000;

/// Length of one performance sample of the network, in seconds.
pub const SAMPLE_PERIOD_SECS: u64 = 60;

/// The remote values fetched on each cycle.
#[derive(Clone, Copy, Debug, PartialEq, Eq, Structural)]
pub enum FieldKind {
    Balance,
    Throughput,
    Price,
    Clock,
}

/// What a fetch of this kind falls back to when every attempt failed: zero
/// for the advisory values, nothing for the clock.
pub open spec fn fallback_spec(kind: FieldKind) -> Option<FieldUpdate> {
    match kind {
        FieldKind::Balance => Some(FieldUpdate::Balance(0)),
        FieldKind::Throughput => Some(FieldUpdate::Throughput { slot: 0, tps: 0 }),
        FieldKind::Price => Some(FieldUpdate::Price(0)),
        FieldKind::Clock => None,
    }
}

/// The snapshot after the result of one fetch is published: the fetched
/// value, else the fallback, else no change.
pub open spec fn published(
    s: TelemetrySnapshot,
    kind: FieldKind,
    fetched: Option<FieldUpdate>,
) -> TelemetrySnapshot {
    match fetched {
        Some(u) => applied(s, u),
        None => match fallback_spec(kind) {
            Some(u) => applied(s, u),
            None => s,
        },
    }
}

pub fn fallback(kind: FieldKind) -> (r: Option<FieldUpdate>)
    ensures
        r == fallback_spec(kind),
{
    match kind {
        FieldKind::Balance => Some(FieldUpdate::Balance(0)),
        FieldKind::Throughput => Some(FieldUpdate::Throughput { slot: 0, tps: 0 }),
        FieldKind::Price => Some(FieldUpdate::Price(0)),
        FieldKind::Clock => None,
    }
}

/// Writes the result of one fetch of `kind` into the store; `None` stands
/// for a fetch that ran out of attempts.
pub fn publish_fetch(store: &mut SnapshotStore, kind: FieldKind, fetched: Option<FieldUpdate>)
    ensures
        final(store)@ == (old(store)@.0, published(old(store)@.1, kind, fetched)),
{
    match fetched {
        Some(u) => store.update_field(u),
        None => match fallback(kind) {
            Some(u) => store.update_field(u),
            None => {},
        },
    }
}

/// The throughput from one performance sample: its slot and the
/// transactions of the sample per second, rounded down.
pub fn throughput_from_sample(slot: u64, num_transactions: u64) -> (r: FieldUpdate)
    ensures
        r == (FieldUpdate::Throughput { slot, tps: num_transactions / SAMPLE_PERIOD_SECS }),
{
    FieldUpdate::Throughput { slot, tps: num_transactions / SAMPLE_PERIOD_SECS }
}

/// The clock from the parts of a date and time of day.
pub fn clock_from_parts(
    year: u64,
    month: u64,
    day: u64,
    hour: u64,
    minute: u64,
    second: u64,
) -> (r: FieldUpdate)
    ensures
        r matches FieldUpdate::Clock { date, time } && date@ == date_text(
            year as nat,
            month as nat,
            day as nat,
        ) && time@ == time_text(hour as nat, minute as nat, second as nat),
{
    let date = format_date(year, month, day);
    let time = format_time(hour, minute, second);
    FieldUpdate::Clock { date, time }
}

/// Why one attempt of a fetch failed; both kinds are retried alike.
#[derive(Clone, Copy, Debug, PartialEq, Eq, Structural)]
pub enum FetchError {
    /// The request did not complete.
    Transient,
    /// The response did not have the expected shape.
    Malformed,
}

/// One performance sample of the network, with the fields that a response
/// may lack.
#[derive(Clone, Copy, Debug, PartialEq, Eq, Structural)]
pub struct PerformanceSample {
    pub slot: Option<u64>,
    pub num_transactions: Option<u64>,
}

/// A field that a response lacks counts as zero.
pub open spec fn or_zero(v: Option<u64>) -> u64 {
    match v {
        Some(x) => x,
        None => 0,
    }
}

/// A number that a response lacks, or gives below zero, counts as zero.
pub open spec fn part_or_zero(v: Option<i64>) -> u64 {
    match v {
        Some(x) => if x >= 0 {
            x as u64
        } else {
            0
        },
        None => 0,
    }
}

fn part(v: Option<i64>) -> (r: u64)
    ensures
        r == part_or_zero(v),
{
    match v {
        Some(x) => if x >= 0 {
            x as u64
        } else {
            0
        },
        None => 0,
    }
}

/// The balance from the `value` field of a balance response.
pub fn balance_from_field(value: Option<u64>) -> (r: FieldUpdate)
    ensures
        r == FieldUpdate::Balance(or_zero(value)),
{
    match value {
        Some(b) => FieldUpdate::Balance(b),
        None => FieldUpdate::Balance(0),
    }
}

/// The throughput from the first of the samples of a response; a response
/// without samples is malformed.
pub fn throughput_from_samples(samples: &Vec<PerformanceSample>) -> (r: Result<
    FieldUpdate,
    FetchError,
>)
    ensures
        samples@.len() == 0 ==> r == Err::<FieldUpdate, FetchError>(FetchError::Malformed),
        samples@.len() > 0 ==> r == Ok::<FieldUpdate, FetchError>(
            FieldUpdate::Throughput {
                slot: or_zero(samples@[0].slot),
                tps: (or_zero(samples@[0].num_transactions) / SAMPLE_PERIOD_SECS) as u64,
            },
        ),
{
    if samples.len() == 0 {
        return Err(FetchError::Malformed);
    }
    let first = samples[0];
    let slot = match first.slot {
        Some(v) => v,
        None => 0,
    };
    let num_transactions = match first.num_transactions {
        Some(v) => v,
        None => 0,
    };
    Ok(throughput_from_sample(slot, num_transactions))
}

/// The clock from the date and time fields of a time response.
pub fn clock_from_fields(
    year: Option<i64>,
    month: Option<i64>,
    day: Option<i64>,
    hour: Option<i64>,
    minute: Option<i64>,
    second: Option<i64>,
) -> (r: FieldUpdate)
    ensures
        r matches FieldUpdate::Clock { date, time } && date@ == date_text(
            part_or_zero(year) as nat,
            part_or_zero(month) as nat,
            part_or_zero(day) as nat,
        ) && time@ == time_text(
            part_or_zero(hour) as nat,
            part_or_zero(minute) as nat,
            part_or_zero(second) as nat,
        ),
{
    clock_from_parts(part(year), part(month), part(day), part(hour), part(minute), part(second))
}

/// A balance source that fails on every attempt leaves a balance of zero;
/// unless zero is already on the screen, the next balance tick draws `0.00`,
/// and the tick after it draws nothing.
pub proof fn lemma_fallback_on_exhaustion(
    succeeds: spec_fn(nat) -> bool,
    s: TelemetrySnapshot,
    r: RenderedState,
    qr: Seq<Vec<bool>>,
)
    requires
        forall|i: nat| !#[trigger] succeeds(i),
        r.balance != Some(0u64),
    ensures
        !fetch_run(succeeds, 0).1,
        ({
            let s2 = published(s, FieldKind::Balance, None);
            &&& s2.balance == 0
            &&& tick_ops(r, DisplaySection::Balance, s2, qr) == balance_frame(0)
            &&& balance_frame(0)[2] == centred_text_op("0.00"@, VALUE_Y as nat, Font::Regular)
            &&& tick_ops(next_rendered(r, DisplaySection::Balance, s2), DisplaySection::Balance, s2, qr).len() == 0
        }),
{
    lemma_retry_bound(succeeds);
    reveal_strlit("0.00");
    assert(sol_text(0) =~= "0.00"@);
}

} // verus!
