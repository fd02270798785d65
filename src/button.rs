//! One watcher per button: a press selects the button's section, then the
//! button is ignored for a dead time.

use vstd::prelude::*;
use crate::section::DisplaySection;

verus! {

/// Dead time after a press, in milliseconds: the button is not read again
/// before it has passed.
pub const COOLDOWN_MS: u64 = 5000;

/// Pause between two readings of a released button, in milliseconds.
pub const IDLE_POLL_MS: u64 = 500;

/// What a watcher does after one reading of its input line.
#[derive(Clone, Copy, Debug, PartialEq, Eq, Structural)]
pub struct WatchStep {
    /// The section to write into the store, if the button was pressed.
    pub select: Option<DisplaySection>,
    /// How long to sleep before the next reading, in milliseconds.
    pub sleep_ms: u64,
}

/// A press writes the section and starts the dead time; a released button
/// is read again after the idle pause.
pub open spec fn watch_step(section: DisplaySection, pressed: bool) -> WatchStep {
    if pressed {
        WatchStep { select: Some(section), sleep_ms: COOLDOWN_MS }
    } else {
        WatchStep { select: None, sleep_ms: IDLE_POLL_MS }
    }
}

/// The watcher of one button, bound to the section that it selects.
#[derive(Clone, Copy, Debug, PartialEq, Eq, Structural)]
pub struct ButtonWatcher {
    pub section: DisplaySection,
}

impl ButtonWatcher {
    pub fn new(section: DisplaySection) -> (r: Self)
        ensures
            r.section == section,
    {
        ButtonWatcher { section }
    }

    /// Decides on one reading of the line; `pressed` is true while the
    /// active-low line reads low.
    pub fn step(&self, pressed: bool) -> (r: WatchStep)
        ensures
            r == watch_step(self.section, pressed),
    {
        if pressed {
            WatchStep { select: Some(self.section), sleep_ms: COOLDOWN_MS }
        } else {
            WatchStep { select: None, sleep_ms: IDLE_POLL_MS }
        }
    }
}

/// The moments, in milliseconds, at which a watcher that reads its line at
/// `t` writes its section before `end`, where `held(u)` says whether the
/// button is down at moment `u`.
pub open spec fn press_times(
    section: DisplaySection,
    held: spec_fn(int) -> bool,
    t: int,
    end: int,
) -> Seq<int>
    decreases if t < end { end - t } else { 0 },
{
    if t >= end {
        seq![]
    } else {
        let s = watch_step(section, held(t));
        let next = t + s.sleep_ms;
        if s.select is Some {
            seq![t] + press_times(section, held, next, end)
        } else {
            press_times(section, held, next, end)
        }
    }
}

/// A button held down for ten seconds from the first reading is taken as
/// two presses: at once, and when the dead time has passed.
pub proof fn lemma_debounce_held(section: DisplaySection, held: spec_fn(int) -> bool)
    requires
        forall|u: int| 0 <= u < 10_000 ==> #[trigger] held(u),
    ensures
        press_times(section, held, 0, 10_000) == seq![0int, 5000int],
{
    assert(held(0) && held(5000));
    assert(press_times(section, held, 10_000, 10_000) == Seq::<int>::empty());
    assert(press_times(section, held, 5000, 10_000) =~= seq![5000int]);
    assert(press_times(section, held, 0, 10_000) =~= seq![0int, 5000int]);
}

/// However the button is handled, the writes of one watcher lie in the
/// window, in order, and two of them are at least the dead time apart.
pub proof fn lemma_press_spacing(
    section: DisplaySection,
    held: spec_fn(int) -> bool,
    t: int,
    end: int,
)
    ensures
        forall|i: int|
            0 <= i < press_times(section, held, t, end).len() ==> t <= #[trigger] press_times(
                section,
                held,
                t,
                end,
            )[i] < end,
        forall|i: int|
            0 <= i < press_times(section, held, t, end).len() - 1 ==> #[trigger] press_times(
                section,
                held,
                t,
                end,
            )[i] + COOLDOWN_MS <= press_times(section, held, t, end)[i + 1],
    decreases if t < end { end - t } else { 0 },
{
    if t < end {
        let s = watch_step(section, held(t));
        assert(s.sleep_ms > 0);
        let next = t + s.sleep_ms;
        lemma_press_spacing(section, held, next, end);
        let rest = press_times(section, held, next, end);
        let all = press_times(section, held, t, end);
        if s.select is Some {
            assert(all == seq![t] + rest);
            assert forall|i: int| 0 <= i < all.len() - 1 implies #[trigger] all[i] + COOLDOWN_MS
                <= all[i + 1] by {
                if i > 0 {
                    assert(all[i] == rest[i - 1]);
                    assert(all[i + 1] == rest[i]);
                } else {
                    assert(all[1] == rest[0]);
                }
            }
            assert forall|i: int| 0 <= i < all.len() implies t <= #[trigger] all[i] < end by {
                if i > 0 {
                    assert(all[i] == rest[i - 1]);
                }
            }
        }
    }
}

} // verus!
