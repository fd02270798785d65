use sol_display::poller::{
    balance_from_field, clock_from_fields, clock_from_parts, fallback, publish_fetch,
    throughput_from_sample, throughput_from_samples, FetchError, FieldKind, PerformanceSample,
    POLL_INTERVAL_MS,
};
use sol_display::retry::{RetryAction, RetryState, MAX_RETRIES, RETRY_DELAY_MS};
use sol_display::section::{indicators_for, DisplaySection, Indicators, DEFAULT_SECTION};
use sol_display::snapshot::{FieldUpdate, SnapshotStore, TelemetrySnapshot};

/// Runs a fetch whose attempts succeed as `outcomes` says; returns the calls
/// made, the pauses taken and the value.
fn run(outcomes: &[bool]) -> (u32, Vec<u64>, Option<usize>) {
    let mut state = RetryState::new();
    let mut calls = 0u32;
    let mut pauses = Vec::new();
    loop {
        let i = calls as usize;
        calls += 1;
        if outcomes.get(i).copied().unwrap_or(false) {
            return (calls, pauses, Some(i));
        }
        match state.on_failure() {
            RetryAction::RetryAfter(ms) => pauses.push(ms),
            RetryAction::GiveUp => return (calls, pauses, None),
        }
    }
}

#[test]
fn failing_source_called_exactly_three_times() {
    assert_eq!(MAX_RETRIES, 3);
    let (calls, pauses, value) = run(&[false; 10]);
    assert_eq!(calls, 3);
    assert_eq!(pauses, vec![RETRY_DELAY_MS, RETRY_DELAY_MS]);
    assert_eq!(RETRY_DELAY_MS, 1500);
    assert_eq!(value, None);
}

#[test]
fn retry_stops_at_first_success() {
    assert_eq!(run(&[true]), (1, vec![], Some(0)));
    assert_eq!(run(&[false, true]), (2, vec![1500], Some(1)));
    assert_eq!(run(&[false, false, true]), (3, vec![1500, 1500], Some(2)));
    assert_eq!(run(&[false, false, false, true]).2, None);
}

#[test]
fn retry_state_counts_failures() {
    let mut s = RetryState::new();
    assert_eq!(s.on_failure(), RetryAction::RetryAfter(1500));
    assert_eq!(s.on_failure(), RetryAction::RetryAfter(1500));
    assert_eq!(s.on_failure(), RetryAction::GiveUp);
    assert_eq!(s.failures, 3);
}

#[test]
fn fallbacks_per_kind() {
    assert_eq!(fallback(FieldKind::Balance), Some(FieldUpdate::Balance(0)));
    assert_eq!(fallback(FieldKind::Throughput), Some(FieldUpdate::Throughput { slot: 0, tps: 0 }));
    assert_eq!(fallback(FieldKind::Price), Some(FieldUpdate::Price(0)));
    assert_eq!(fallback(FieldKind::Clock), None);
}

#[test]
fn publish_writes_value_or_fallback() {
    let mut store = SnapshotStore::new();
    publish_fetch(&mut store, FieldKind::Throughput, Some(throughput_from_sample(321, 6_000)));
    publish_fetch(&mut store, FieldKind::Price, Some(FieldUpdate::Price(14_523)));
    publish_fetch(&mut store, FieldKind::Clock, Some(clock_from_parts(2024, 3, 7, 9, 5, 0)));
    publish_fetch(&mut store, FieldKind::Balance, Some(FieldUpdate::Balance(42)));
    let (_, s) = store.read();
    assert_eq!((s.slot, s.tps, s.price_cents, s.balance), (321, 100, 14_523, 42));
    assert_eq!((s.date.as_str(), s.time.as_str()), ("2024-03-07", "09:05:00"));

    // Failed fetches: advisory values fall back to zero, the clock stays.
    publish_fetch(&mut store, FieldKind::Throughput, None);
    publish_fetch(&mut store, FieldKind::Price, None);
    publish_fetch(&mut store, FieldKind::Clock, None);
    let (_, s) = store.read();
    assert_eq!((s.slot, s.tps, s.price_cents, s.balance), (0, 0, 0, 42));
    assert_eq!((s.date.as_str(), s.time.as_str()), ("2024-03-07", "09:05:00"));
}

#[test]
fn throughput_is_per_second_of_the_sample() {
    assert_eq!(throughput_from_sample(9, 179), FieldUpdate::Throughput { slot: 9, tps: 2 });
    assert_eq!(throughput_from_sample(9, 59), FieldUpdate::Throughput { slot: 9, tps: 0 });
    assert_eq!(POLL_INTERVAL_MS, 5000);
}

#[test]
fn store_starts_on_balance_and_changes_one_unit() {
    let mut store = SnapshotStore::new();
    let (section, s) = store.read();
    assert_eq!(section, DEFAULT_SECTION);
    assert_eq!(section, DisplaySection::Balance);
    assert_eq!(s, TelemetrySnapshot::new());
    store.set_section(DisplaySection::QrCode);
    store.update_field(FieldUpdate::Balance(5));
    let (section, s) = store.read();
    assert_eq!(section, DisplaySection::QrCode);
    assert_eq!((s.balance, s.slot, s.tps, s.price_cents), (5, 0, 0, 0));
    assert_eq!(s.copy(), s);
}

#[test]
fn lights_follow_section() {
    for s in [DisplaySection::Balance, DisplaySection::Tps, DisplaySection::SolPrice, DisplaySection::QrCode] {
        assert_eq!(indicators_for(s), Indicators { active: true, off: false });
    }
    assert_eq!(indicators_for(DisplaySection::ScreenOff), Indicators { active: false, off: true });
}

#[test]
fn balance_field_defaults_to_zero() {
    assert_eq!(balance_from_field(Some(2_500_000_000)), FieldUpdate::Balance(2_500_000_000));
    assert_eq!(balance_from_field(None), FieldUpdate::Balance(0));
}

#[test]
fn throughput_from_first_sample() {
    let samples = vec![
        PerformanceSample { slot: Some(300), num_transactions: Some(120_000) },
        PerformanceSample { slot: Some(299), num_transactions: Some(1) },
    ];
    assert_eq!(
        throughput_from_samples(&samples),
        Ok(FieldUpdate::Throughput { slot: 300, tps: 2_000 })
    );
    let partial = vec![PerformanceSample { slot: None, num_transactions: Some(600) }];
    assert_eq!(
        throughput_from_samples(&partial),
        Ok(FieldUpdate::Throughput { slot: 0, tps: 10 })
    );
}

#[test]
fn no_samples_is_malformed() {
    assert_eq!(throughput_from_samples(&Vec::new()), Err(FetchError::Malformed));
    assert_ne!(FetchError::Malformed, FetchError::Transient);
}

#[test]
fn clock_fields_missing_or_negative_count_as_zero() {
    let c = clock_from_fields(Some(2024), Some(3), Some(7), Some(9), None, Some(-4));
    assert_eq!(
        c,
        FieldUpdate::Clock { date: "2024-03-07".to_string(), time: "09:00:00".to_string() }
    );
}
