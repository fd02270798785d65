use sol_display::display::{DrawCommand, Font};
use sol_display::poller::{publish_fetch, FieldKind};
use sol_display::render::RenderLoop;
use sol_display::retry::{RetryAction, RetryState};
use sol_display::section::{DisplaySection, Indicators};
use sol_display::snapshot::{FieldUpdate, SnapshotStore, TelemetrySnapshot};

const WALLET: &str = "9WzDXwBbmkg8ZTbNMqUxvQRAyrZzDsGYdLVL9zYtAWWM";

fn snapshot(balance: u64, slot: u64, tps: u64, price_cents: u64) -> TelemetrySnapshot {
    TelemetrySnapshot {
        balance,
        slot,
        tps,
        price_cents,
        date: String::new(),
        time: String::new(),
    }
}

fn value_text(cmds: &[DrawCommand]) -> Option<String> {
    match cmds.get(2) {
        Some(DrawCommand::Text { text, .. }) => Some(text.clone()),
        _ => None,
    }
}

#[test]
fn unchanged_value_is_not_redrawn() {
    let mut r = RenderLoop::new(WALLET.to_string());
    let s = snapshot(100, 1, 1, 1);
    let first = r.tick(DisplaySection::Balance, &s);
    assert_eq!(first.commands.len(), 3);
    let second = r.tick(DisplaySection::Balance, &s);
    assert!(second.commands.is_empty());
    // A change of another field does not redraw the balance either.
    let second_again = r.tick(DisplaySection::Balance, &snapshot(100, 9, 9, 9));
    assert!(second_again.commands.is_empty());
    let changed = r.tick(DisplaySection::Balance, &snapshot(200, 9, 9, 9));
    assert_eq!(changed.commands.len(), 3);
}

#[test]
fn unchanged_tps_and_price_are_not_redrawn() {
    let mut r = RenderLoop::new(WALLET.to_string());
    let s = snapshot(0, 10, 20, 30);
    assert_eq!(r.tick(DisplaySection::Tps, &s).commands.len(), 5);
    assert!(r.tick(DisplaySection::Tps, &s).commands.is_empty());
    assert_eq!(r.tick(DisplaySection::Tps, &snapshot(0, 11, 20, 30)).commands.len(), 5);
    assert_eq!(r.tick(DisplaySection::SolPrice, &s).commands.len(), 3);
    assert!(r.tick(DisplaySection::SolPrice, &s).commands.is_empty());
}

#[test]
fn balance_redrawn_on_return_from_tps() {
    let mut r = RenderLoop::new(WALLET.to_string());
    let s = snapshot(100, 5, 6, 0);
    let a = r.tick(DisplaySection::Balance, &s);
    assert_eq!(value_text(&a.commands).as_deref(), Some("0.00"));
    assert_eq!(a.commands.len(), 3);
    let b = r.tick(DisplaySection::Tps, &s);
    assert_eq!(b.commands.len(), 5);
    assert!(!b
        .commands
        .iter()
        .any(|c| matches!(c, DrawCommand::Text { text, .. } if text == "Sol Balance:")));
    let c = r.tick(DisplaySection::Balance, &s);
    assert_eq!(c.commands, a.commands);
}

#[test]
fn exhausted_balance_fetch_shows_zero() {
    let mut store = SnapshotStore::new();
    store.update_field(FieldUpdate::Balance(7_000_000_000));
    let mut r = RenderLoop::new(WALLET.to_string());
    let (section, s) = store.read();
    assert_eq!(value_text(&r.tick(section, &s).commands).as_deref(), Some("7.00"));

    let mut calls = 0;
    let mut state = RetryState::new();
    let fetched: Option<u64> = loop {
        calls += 1;
        let outcome: Result<u64, ()> = Err(());
        match outcome {
            Ok(v) => break Some(v),
            Err(()) => match state.on_failure() {
                RetryAction::RetryAfter(_) => continue,
                RetryAction::GiveUp => break None,
            },
        }
    };
    assert_eq!(calls, 3);
    publish_fetch(&mut store, FieldKind::Balance, fetched.map(FieldUpdate::Balance));
    let (section, s) = store.read();
    assert_eq!(s.balance, 0);
    let out = r.tick(section, &s);
    assert_eq!(
        out.commands[2],
        DrawCommand::Text { text: "0.00".to_string(), x: 52, y: 33, font: Font::Regular }
    );
    assert!(r.tick(section, &s).commands.is_empty());
}

#[test]
fn fetched_balance_drawn_centred() {
    let mut store = SnapshotStore::new();
    publish_fetch(&mut store, FieldKind::Balance, Some(FieldUpdate::Balance(2_500_000_000)));
    let (section, s) = store.read();
    assert_eq!(section, DisplaySection::Balance);
    let mut r = RenderLoop::new(WALLET.to_string());
    let out = r.tick(section, &s);
    assert_eq!(
        out.commands[2],
        DrawCommand::Text { text: "2.50".to_string(), x: 52, y: 33, font: Font::Regular }
    );
}

#[test]
fn qr_code_redrawn_every_tick() {
    let mut r = RenderLoop::new(WALLET.to_string());
    let s = snapshot(1, 2, 3, 4);
    let first = r.tick(DisplaySection::QrCode, &s);
    assert!(first.commands.len() > 1);
    assert_eq!(first.commands[0], DrawCommand::ClearFrame);
    for _ in 0..3 {
        let again = r.tick(DisplaySection::QrCode, &s);
        assert_eq!(again.commands, first.commands);
    }
    r.tick(DisplaySection::Balance, &s);
    assert_eq!(r.tick(DisplaySection::QrCode, &s).commands, first.commands);
}

#[test]
fn screen_off_draws_logo_and_switches_lights() {
    let mut r = RenderLoop::new(WALLET.to_string());
    let s = snapshot(1, 2, 3, 4);
    let on = r.tick(DisplaySection::Balance, &s);
    assert_eq!(on.indicators, Indicators { active: true, off: false });
    let off = r.tick(DisplaySection::ScreenOff, &s);
    assert_eq!(off.commands, vec![DrawCommand::ClearFrame, DrawCommand::Logo]);
    assert_eq!(off.indicators, Indicators { active: false, off: true });
    let off_again = r.tick(DisplaySection::ScreenOff, &s);
    assert_eq!(off_again.commands, off.commands);
    // Back from the blank screen the balance is drawn again.
    assert_eq!(r.tick(DisplaySection::Balance, &s).commands.len(), 3);
}
