//! The display sections and the indicator lights that follow them.

use vstd::prelude::*;

verus! {

/// The one telemetry category shown at a time, or the blanked screen.
#[derive(Clone, Copy, Debug, PartialEq, Eq, Structural)]
pub enum DisplaySection {
    Balance,
    Tps,
    SolPrice,
    QrCode,
    ScreenOff,
}

/// The section shown right after start-up.
pub const DEFAULT_SECTION: DisplaySection = DisplaySection::Balance;

/// Does the section show a fetched value that can be compared with what is
/// already on the screen?
pub open spec fn is_data_section(s: DisplaySection) -> bool {
    s == DisplaySection::Balance || s == DisplaySection::Tps || s == DisplaySection::SolPrice
}

/// The state of the two status lights.
#[derive(Clone, Copy, Debug, PartialEq, Eq, Structural)]
pub struct Indicators {
    /// Lit while a section with content is shown.
    pub active: bool,
    /// Lit while the screen is off.
    pub off: bool,
}

pub open spec fn indicators_spec(s: DisplaySection) -> Indicators {
    Indicators { active: s != DisplaySection::ScreenOff, off: s == DisplaySection::ScreenOff }
}

/// The status lights are a pure function of the section: one for the
/// content sections, the other for the blanked screen.
pub fn indicators_for(s: DisplaySection) -> (r: Indicators)
    ensures
        r == indicators_spec(s),
{
    let off = match s {
        DisplaySection::ScreenOff => true,
        _ => false,
    };
    Indicators { active: !off, off }
}

} // verus!
