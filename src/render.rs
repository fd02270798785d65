//! The render loop: on each tick, draw the active section only where it
//! differs from what the screen already shows.

use vstd::prelude::*;
use crate::display::{
    balance_frame, logo_frame, ops_of, price_frame, qr_frame, tps_frame, DisplayModule,
    DrawCommand, DrawOp,
};
use crate::section::{indicators_for, indicators_spec, is_data_section, DisplaySection, Indicators};
use crate::snapshot::TelemetrySnapshot;

verus! {

/// Pause between two ticks, in milliseconds.
pub const RENDER_TICK_MS: u64 = 150;

/// The last value of each field that was drawn while its section stayed
/// active; `None` where the next showing must draw whatever the value.
#[derive(Clone, Copy, Debug)]
pub struct RenderedState {
    pub balance: Option<u64>,
    pub throughput: Option<(u64, u64)>,
    pub price: Option<u64>,
}

/// Nothing is known to be on the screen.
pub open spec fn nothing_rendered() -> RenderedState {
    RenderedState { balance: None, throughput: None, price: None }
}

/// What the screen shows after a tick: the field of the active section,
/// every other field forgotten.
pub open spec fn next_rendered(
    r: RenderedState,
    section: DisplaySection,
    s: TelemetrySnapshot,
) -> RenderedState {
    match section {
        DisplaySection::Balance => RenderedState { balance: Some(s.balance), ..nothing_rendered() },
        DisplaySection::Tps => RenderedState {
            throughput: Some((s.slot, s.tps)),
            ..nothing_rendered()
        },
        DisplaySection::SolPrice => RenderedState {
            price: Some(s.price_cents),
            ..nothing_rendered()
        },
        _ => nothing_rendered(),
    }
}

/// What a tick draws: the active section's screen where its value differs
/// from the one drawn, nothing where it is the same; the QR code and the
/// logo on every tick.
pub open spec fn tick_ops(
    r: RenderedState,
    section: DisplaySection,
    s: TelemetrySnapshot,
    qr: Seq<Vec<bool>>,
) -> Seq<DrawOp> {
    match section {
        DisplaySection::Balance => if r.balance == Some(s.balance) {
            seq![]
        } else {
            balance_frame(s.balance)
        },
        DisplaySection::Tps => if r.throughput == Some((s.slot, s.tps)) {
            seq![]
        } else {
            tps_frame(s.slot, s.tps)
        },
        DisplaySection::SolPrice => if r.price == Some(s.price_cents) {
            seq![]
        } else {
            price_frame(s.price_cents)
        },
        DisplaySection::QrCode => qr_frame(qr),
        DisplaySection::ScreenOff => logo_frame(),
    }
}

/// The commands and the indicator lights of one tick.
#[derive(Debug)]
pub struct TickOutput {
    pub commands: Vec<DrawCommand>,
    pub indicators: Indicators,
}

/// The render loop's own state: the layouts and what was last drawn.
pub struct RenderLoop {
    pub display: DisplayModule,
    pub rendered: RenderedState,
}

impl RenderLoop {
    /// A loop that has drawn nothing yet.
    pub fn new(wallet_address: String) -> (r: Self)
        ensures
            r.rendered == nothing_rendered(),
            r.display.ops().len() == 0,
            r.display.wallet() == wallet_address@,
            wallet_address@.len() <= crate::qr::QR_TEXT_CAPACITY ==> r.display.qr_view().len() >= 21,
    {
        RenderLoop {
            display: DisplayModule::new(wallet_address),
            rendered: RenderedState { balance: None, throughput: None, price: None },
        }
    }

    /// One tick on the section and snapshot just read from the store; the
    /// commands start with any that were recorded before it and not taken.
    pub fn tick(&mut self, section: DisplaySection, snapshot: &TelemetrySnapshot) -> (r:
        TickOutput)
        ensures
            ops_of(r.commands@) == old(self).display.ops() + tick_ops(
                old(self).rendered,
                section,
                *snapshot,
                old(self).display.qr_view(),
            ),
            final(self).display.ops().len() == 0,
            final(self).rendered == next_rendered(old(self).rendered, section, *snapshot),
            r.indicators == indicators_spec(section),
            final(self).display.qr_view() == old(self).display.qr_view(),
            final(self).display.wallet() == old(self).display.wallet(),
    {
        match section {
            DisplaySection::Balance => {
                let b = snapshot.balance;
                let same = match self.rendered.balance {
                    Some(v) => v == b,
                    None => false,
                };
                if !same {
                    self.display.show_balance(b);
                }
                self.rendered = RenderedState { balance: Some(b), throughput: None, price: None };
            },
            DisplaySection::Tps => {
                let t = (snapshot.slot, snapshot.tps);
                let same = match self.rendered.throughput {
                    Some(v) => v.0 == t.0 && v.1 == t.1,
                    None => false,
                };
                if !same {
                    self.display.show_tps(t);
                }
                self.rendered = RenderedState { balance: None, throughput: Some(t), price: None };
            },
            DisplaySection::SolPrice => {
                let p = snapshot.price_cents;
                let same = match self.rendered.price {
                    Some(v) => v == p,
                    None => false,
                };
                if !same {
                    self.display.show_sol_usd_price(p);
                }
                self.rendered = RenderedState { balance: None, throughput: None, price: Some(p) };
            },
            DisplaySection::QrCode => {
                self.display.draw_qr_code();
                self.rendered = RenderedState { balance: None, throughput: None, price: None };
            },
            DisplaySection::ScreenOff => {
                self.display.draw_image();
                self.rendered = RenderedState { balance: None, throughput: None, price: None };
            },
        }
        assert(self.display.ops() =~= old(self).display.ops() + tick_ops(
            old(self).rendered,
            section,
            *snapshot,
            old(self).display.qr_view(),
        ));
        let commands = self.display.take_commands();
        TickOutput { commands, indicators: indicators_for(section) }
    }
}

/// A data section whose value did not change since the previous tick is
/// not drawn again on this one.
pub proof fn lemma_idempotent_render(
    r: RenderedState,
    section: DisplaySection,
    first: TelemetrySnapshot,
    second: TelemetrySnapshot,
    qr: Seq<Vec<bool>>,
)
    requires
        is_data_section(section),
        section == DisplaySection::Balance ==> first.balance == second.balance,
        section == DisplaySection::Tps ==> first.slot == second.slot && first.tps == second.tps,
        section == DisplaySection::SolPrice ==> first.price_cents == second.price_cents,
    ensures
        tick_ops(next_rendered(r, section, first), section, second, qr).len() == 0,
{
}

/// Balance, then throughput, then balance again with the same value: the
/// balance is drawn on the first tick (unless that very value was already
/// shown), the throughput screen and no balance on the second, and the
/// balance once more on the third.
pub proof fn lemma_redraw_on_return(
    r: RenderedState,
    qr: Seq<Vec<bool>>,
    a: TelemetrySnapshot,
    b: TelemetrySnapshot,
    c: TelemetrySnapshot,
)
    requires
        r.balance != Some(a.balance),
        a.balance == c.balance,
    ensures
        ({
            let r1 = next_rendered(r, DisplaySection::Balance, a);
            let r2 = next_rendered(r1, DisplaySection::Tps, b);
            &&& tick_ops(r, DisplaySection::Balance, a, qr) == balance_frame(a.balance)
            &&& tick_ops(r1, DisplaySection::Tps, b, qr) == tps_frame(b.slot, b.tps)
            &&& tick_ops(r2, DisplaySection::Balance, c, qr) == balance_frame(c.balance)
        }),
{
}

/// Whatever was drawn before, a tick on the QR code section draws the whole
/// code again.
pub proof fn lemma_qr_redrawn(r: RenderedState, s: TelemetrySnapshot, qr: Seq<Vec<bool>>)
    ensures
        tick_ops(r, DisplaySection::QrCode, s, qr) == qr_frame(qr),
        tick_ops(r, DisplaySection::QrCode, s, qr).len() >= 1,
        tick_ops(r, DisplaySection::QrCode, s, qr)[0] == DrawOp::ClearFrame,
{
}

} // verus!
