//! What is drawn on the 128x64 monochrome screen, as a list of commands.
//!
//! `DisplayModule` records the commands of each screen layout; whoever owns
//! the physical display takes them with `take_commands` and executes them.

use vstd::prelude::*;
use crate::qr::{is_qr_matrix, qr_matrix, QrMatrix, QR_MAX_SIZE};
use crate::text::{
    dec_digits, decimal_text, fixed2, fixed2_text, sol_balance_text, sol_text,
};

verus! {

pub const DISPLAY_WIDTH: u64 = 128;

pub const DISPLAY_HEIGHT: u64 = 64;

/// Width of the glyph that centring assumes, whatever the font.
pub const CENTRE_GLYPH_WIDTH: u64 = 6;

/// Height of the glyph that centring assumes.
pub const CENTRE_GLYPH_HEIGHT: u64 = 10;

/// Side of one QR module on the screen, in pixels.
pub const QR_SCALE: i32 = 2;

/// Free rows above and below the QR code.
pub const QR_PADDING_Y: i32 = 6;

/// The two fonts of the screen.
#[derive(Clone, Copy, Debug, PartialEq, Eq, Structural)]
pub enum Font {
    /// Glyphs of 4 by 6 pixels.
    Small,
    /// Glyphs of 6 by 10 pixels.
    Regular,
}

pub open spec fn glyph_width(f: Font) -> nat {
    match f {
        Font::Small => 4,
        Font::Regular => 6,
    }
}

/// One drawing operation on the screen.
#[derive(Debug, PartialEq, Eq)]
pub enum DrawCommand {
    /// Blank the screen, leaving a one-pixel frame round it.
    ClearFrame,
    /// Text whose top-left corner is at `(x, y)`.
    Text { text: String, x: u8, y: u8, font: Font },
    /// The logo image, centred.
    Logo,
    /// A filled square with its top-left corner at `(left, top)`.
    Square { left: i32, top: i32, side: u32 },
}

/// What a `DrawCommand` draws, with its text as characters.
pub enum DrawOp {
    ClearFrame,
    Text { text: Seq<char>, x: u8, y: u8, font: Font },
    Logo,
    Square { left: i32, top: i32, side: u32 },
}

impl View for DrawCommand {
    type V = DrawOp;

    open spec fn view(&self) -> DrawOp {
        match self {
            DrawCommand::ClearFrame => DrawOp::ClearFrame,
            DrawCommand::Text { text, x, y, font } => DrawOp::Text {
                text: text@,
                x: *x,
                y: *y,
                font: *font,
            },
            DrawCommand::Logo => DrawOp::Logo,
            DrawCommand::Square { left, top, side } => DrawOp::Square {
                left: *left,
                top: *top,
                side: *side,
            },
        }
    }
}

/// The operations of a list of commands.
pub open spec fn ops_of(cmds: Seq<DrawCommand>) -> Seq<DrawOp> {
    cmds.map_values(|c: DrawCommand| c@)
}

/// Left edge that centres `len` glyphs of width `w`; the left border where
/// they do not fit.
pub open spec fn centred_x(len: nat, w: nat) -> nat {
    if len * w <= DISPLAY_WIDTH {
        ((DISPLAY_WIDTH - len * w) / 2) as nat
    } else {
        0
    }
}

/// Top edge of text centred vertically.
pub open spec fn centred_y() -> nat {
    ((DISPLAY_HEIGHT - CENTRE_GLYPH_HEIGHT) / 2) as nat
}

/// Text at a fixed place.
pub open spec fn text_op(text: Seq<char>, x: nat, y: nat, font: Font) -> DrawOp {
    DrawOp::Text { text, x: x as u8, y: y as u8, font }
}

/// Text centred horizontally on row `y`, as wide as the font draws it.
pub open spec fn centred_text_op(text: Seq<char>, y: nat, font: Font) -> DrawOp {
    text_op(text, centred_x(text.len(), glyph_width(font)), y, font)
}

// ---- Layouts ----

pub open spec fn balance_label() -> Seq<char> {
    "Sol Balance:"@
}

pub open spec fn price_label() -> Seq<char> {
    "Sol USD Price:"@
}

pub open spec fn slot_label() -> Seq<char> {
    "Slot:"@
}

pub open spec fn tps_label() -> Seq<char> {
    "TPS:"@
}

/// Row of the label of a single value.
pub const LABEL_Y: u8 = 16;

/// Row of a single value.
pub const VALUE_Y: u8 = 33;

/// Row of the slot label; the rows below it follow from it.
pub const SLOT_LABEL_Y: u8 = 8;

/// Distance from a small label to the value under it.
pub const LINE_STEP: u8 = 11;

/// Extra space between the slot value and the TPS label.
pub const GROUP_GAP: u8 = 6;

/// Distance of the clock from the left, right and bottom edges.
pub const CLOCK_MARGIN: u8 = 5;

/// Row of the clock line.
pub const CLOCK_Y: u8 = 55;

/// The account balance screen.
pub open spec fn balance_frame(lamports: u64) -> Seq<DrawOp> {
    seq![
        DrawOp::ClearFrame,
        centred_text_op(balance_label(), LABEL_Y as nat, Font::Regular),
        centred_text_op(sol_text(lamports as nat), VALUE_Y as nat, Font::Regular),
    ]
}

/// The network throughput screen: the latest slot and transactions per
/// second.
pub open spec fn tps_frame(slot: u64, tps: u64) -> Seq<DrawOp> {
    let slot_value_y = SLOT_LABEL_Y + LINE_STEP;
    let tps_label_y = slot_value_y + LINE_STEP + GROUP_GAP;
    let tps_value_y = tps_label_y + LINE_STEP;
    seq![
        DrawOp::ClearFrame,
        centred_text_op(slot_label(), SLOT_LABEL_Y as nat, Font::Small),
        centred_text_op(dec_digits(slot as nat), slot_value_y as nat, Font::Regular),
        centred_text_op(tps_label(), tps_label_y as nat, Font::Small),
        centred_text_op(dec_digits(tps as nat), tps_value_y as nat, Font::Regular),
    ]
}

/// The price screen, the price given in cents.
pub open spec fn price_frame(cents: u64) -> Seq<DrawOp> {
    seq![
        DrawOp::ClearFrame,
        centred_text_op(price_label(), LABEL_Y as nat, Font::Regular),
        centred_text_op(fixed2(cents as nat), VALUE_Y as nat, Font::Regular),
    ]
}

/// Left edge of text that ends `CLOCK_MARGIN` pixels from the right edge in
/// the small font; the left border where it does not fit.
pub open spec fn right_aligned_x(len: nat) -> nat {
    if len * 4 + CLOCK_MARGIN <= DISPLAY_WIDTH {
        (DISPLAY_WIDTH - len * 4 - CLOCK_MARGIN) as nat
    } else {
        0
    }
}

/// The clock line: the date on the left, the time on the right.
pub open spec fn clock_frame(date: Seq<char>, time: Seq<char>) -> Seq<DrawOp> {
    seq![
        DrawOp::ClearFrame,
        text_op(date, CLOCK_MARGIN as nat, CLOCK_Y as nat, Font::Small),
        text_op(time, right_aligned_x(time.len()), CLOCK_Y as nat, Font::Small),
    ]
}

/// The blanked screen: only the logo.
pub open spec fn logo_frame() -> Seq<DrawOp> {
    seq![DrawOp::ClearFrame, DrawOp::Logo]
}

/// Left edge of a QR code of `n` modules, centred.
pub open spec fn qr_offset_x(n: int) -> int {
    (DISPLAY_WIDTH - n * QR_SCALE) / 2
}

/// Top edge of a QR code of `n` modules, centred between the paddings.
pub open spec fn qr_offset_y(n: int) -> int {
    (DISPLAY_HEIGHT - 2 * QR_PADDING_Y - n * QR_SCALE) / 2 + QR_PADDING_Y
}

/// The square of the module in column `x` and row `y` of a code of `n`.
pub open spec fn module_square(x: int, y: int, n: int) -> DrawOp {
    DrawOp::Square {
        left: (qr_offset_x(n) + x * QR_SCALE) as i32,
        top: (qr_offset_y(n) + y * QR_SCALE) as i32,
        side: QR_SCALE as u32,
    }
}

/// The squares of the dark modules of `row`, row number `y`, left to right.
pub open spec fn row_squares(row: Seq<bool>, y: int, n: int) -> Seq<DrawOp>
    decreases row.len(),
{
    if row.len() == 0 {
        seq![]
    } else {
        let x = row.len() - 1;
        row_squares(row.drop_last(), y, n) + if row.last() {
            seq![module_square(x, y, n)]
        } else {
            seq![]
        }
    }
}

/// The squares of the dark modules of a matrix, row by row.
pub open spec fn matrix_squares(m: Seq<Vec<bool>>, n: int) -> Seq<DrawOp>
    decreases m.len(),
{
    if m.len() == 0 {
        seq![]
    } else {
        matrix_squares(m.drop_last(), n) + row_squares(m.last()@, m.len() - 1, n)
    }
}

/// The QR code screen for a module matrix.
pub open spec fn qr_frame(m: Seq<Vec<bool>>) -> Seq<DrawOp> {
    seq![DrawOp::ClearFrame] + matrix_squares(m, m.len() as int)
}

/// Records the drawing commands of the screen layouts.
pub struct DisplayModule {
    /// The address shown as a QR code.
    wallet_address: String,
    /// Its module matrix; empty where the address does not fit in a code.
    qr: QrMatrix,
    /// Commands recorded and not yet taken.
    pending: Vec<DrawCommand>,
}

impl DisplayModule {
    /// The address shown as a QR code.
    pub closed spec fn wallet(&self) -> Seq<char> {
        self.wallet_address@
    }

    /// The module matrix of the address.
    pub closed spec fn qr_view(&self) -> Seq<Vec<bool>> {
        self.qr@
    }

    /// The operations recorded and not yet taken.
    pub closed spec fn ops(&self) -> Seq<DrawOp> {
        ops_of(self.pending@)
    }

    /// The module matrix of the address, square.
    pub fn qr_modules(&self) -> (r: &Vec<Vec<bool>>)
        ensures
            r@ == self.qr_view(),
            is_qr_matrix(r@),
    {
        self.qr.rows()
    }

    /// The address shown as a QR code.
    pub fn wallet_address(&self) -> (r: &str)
        ensures
            r@ == self.wallet(),
    {
        self.wallet_address.as_str()
    }

    /// A display for `wallet_address`, with nothing recorded.
    pub fn new(wallet_address: String) -> (r: Self)
        ensures
            r.wallet() == wallet_address@,
            r.ops().len() == 0,
            wallet_address@.len() <= crate::qr::QR_TEXT_CAPACITY ==> r.qr_view().len() >= 21,
    {
        let qr = qr_matrix(wallet_address.as_str());
        let r = DisplayModule { wallet_address, qr, pending: Vec::new() };
        assert(r.ops() =~= Seq::<DrawOp>::empty());
        r
    }

    fn record(&mut self, c: DrawCommand)
        ensures
            final(self).ops() == old(self).ops().push(c@),
            final(self).wallet() == old(self).wallet(),
            final(self).qr_view() == old(self).qr_view(),
    {
        self.pending.push(c);
        assert(self.ops() =~= old(self).ops().push(c@));
    }

    /// Hands over the recorded commands and forgets them.
    pub fn take_commands(&mut self) -> (r: Vec<DrawCommand>)
        ensures
            ops_of(r@) == old(self).ops(),
            final(self).ops().len() == 0,
            final(self).wallet() == old(self).wallet(),
            final(self).qr_view() == old(self).qr_view(),
    {
        let mut r: Vec<DrawCommand> = Vec::new();
        core::mem::swap(&mut r, &mut self.pending);
        assert(self.ops() =~= Seq::<DrawOp>::empty());
        r
    }

    /// Text with its top-left corner at `(x_c, y_c)`.
    pub fn create_text(&mut self, text: &str, x_c: u8, y_c: u8, font: Font)
        ensures
            final(self).ops() == old(self).ops().push(text_op(text@, x_c as nat, y_c as nat, font)),
            final(self).wallet() == old(self).wallet(),
            final(self).qr_view() == old(self).qr_view(),
    {
        let owned = String::from_str(text);
        self.record(DrawCommand::Text { text: owned, x: x_c, y: y_c, font });
    }

    /// Text in the middle of the screen; centring assumes the glyph width
    /// of the regular font.
    pub fn create_centered_text(&mut self, text: &str, font: Font)
        ensures
            final(self).ops() == old(self).ops().push(
                text_op(text@, centred_x(text@.len(), CENTRE_GLYPH_WIDTH as nat), centred_y(), font),
            ),
            final(self).wallet() == old(self).wallet(),
            final(self).qr_view() == old(self).qr_view(),
    {
        let x = centre_left(text.unicode_len(), CENTRE_GLYPH_WIDTH);
        let y = ((DISPLAY_HEIGHT - CENTRE_GLYPH_HEIGHT) / 2) as u8;
        self.create_text(text, x, y, font);
    }

    /// Text centred horizontally on row `y_c`.
    fn centred_text(&mut self, text: &str, y_c: u8, font: Font)
        ensures
            final(self).ops() == old(self).ops().push(centred_text_op(text@, y_c as nat, font)),
            final(self).wallet() == old(self).wallet(),
            final(self).qr_view() == old(self).qr_view(),
    {
        let w: u64 = match font {
            Font::Small => 4,
            Font::Regular => 6,
        };
        let x = centre_left(text.unicode_len(), w);
        self.create_text(text, x, y_c, font);
    }

    /// Blanks the screen inside a one-pixel frame.
    pub fn create_black_rectangle(&mut self)
        ensures
            final(self).ops() == old(self).ops().push(DrawOp::ClearFrame),
            final(self).wallet() == old(self).wallet(),
            final(self).qr_view() == old(self).qr_view(),
    {
        self.record(DrawCommand::ClearFrame);
    }

    /// The blanked screen with the logo in its middle.
    pub fn draw_image(&mut self)
        ensures
            final(self).ops() == old(self).ops() + logo_frame(),
            final(self).wallet() == old(self).wallet(),
            final(self).qr_view() == old(self).qr_view(),
    {
        self.create_black_rectangle();
        self.record(DrawCommand::Logo);
        assert(self.ops() =~= old(self).ops() + logo_frame());
    }

    /// The wallet address as a QR code, two pixels per module, centred.
    pub fn draw_qr_code(&mut self)
        ensures
            final(self).ops() == old(self).ops() + qr_frame(old(self).qr_view()),
            final(self).wallet() == old(self).wallet(),
            final(self).qr_view() == old(self).qr_view(),
    {
        self.create_black_rectangle();
        let ghost start = self.ops();
        let rows = self.qr.rows();
        let ghost m = rows@;
        let n = rows.len();
        let ni = n as i32;
        let offset_x = (DISPLAY_WIDTH as i32 - ni * QR_SCALE) / 2;
        let offset_y = (DISPLAY_HEIGHT as i32 - 2 * QR_PADDING_Y - ni * QR_SCALE) / 2 + QR_PADDING_Y;
        let mut y: usize = 0;
        while y < n
            invariant
                m == rows@,
                m == old(self).qr_view(),
                self.wallet() == old(self).wallet(),
                self.qr_view() == old(self).qr_view(),
                n == m.len(),
                n <= QR_MAX_SIZE,
                ni == n as i32,
                is_qr_matrix(m),
                0 <= y <= n,
                offset_x == qr_offset_x(n as int),
                offset_y == qr_offset_y(n as int),
                ops_of(self.pending@) == start + matrix_squares(m.take(y as int), n as int),
            decreases n - y,
        {
            let mut x: usize = 0;
            while x < n
                invariant
                    m == rows@,
                    m == old(self).qr_view(),
                    self.wallet() == old(self).wallet(),
                    self.qr_view() == old(self).qr_view(),
                    n == m.len(),
                    n <= QR_MAX_SIZE,
                    ni == n as i32,
                    is_qr_matrix(m),
                    0 <= y < n,
                    0 <= x <= n,
                    offset_x == qr_offset_x(n as int),
                    offset_y == qr_offset_y(n as int),
                    ops_of(self.pending@) == start + matrix_squares(m.take(y as int), n as int)
                        + row_squares(m[y as int]@.take(x as int), y as int, n as int),
                decreases n - x,
            {
                assert(m[y as int]@.len() == n);
                let ghost row = m[y as int]@;
                let ghost before = ops_of(self.pending@);
                if rows[y][x] {
                    let xi = x as i32;
                    let yi = y as i32;
                    let c = DrawCommand::Square {
                        left: offset_x + xi * QR_SCALE,
                        top: offset_y + yi * QR_SCALE,
                        side: QR_SCALE as u32,
                    };
                    self.pending.push(c);
                    assert(ops_of(self.pending@) =~= before.push(c@));
                }
                proof {
                    assert(row.take(x + 1).drop_last() =~= row.take(x as int));
                    assert(ops_of(self.pending@) =~= start + matrix_squares(m.take(y as int), n as int)
                        + row_squares(row.take(x + 1), y as int, n as int));
                }
                x = x + 1;
            }
            proof {
                assert(m.take(y + 1).drop_last() =~= m.take(y as int));
                assert(m[y as int]@.take(n as int) =~= m[y as int]@);
                assert(m.take(y + 1).last() == m[y as int]);
            }
            y = y + 1;
        }
        assert(m.take(n as int) =~= m);
        assert(self.ops() =~= old(self).ops() + qr_frame(old(self).qr_view()));
    }

    /// The clock line: the date on the left, the time on the right.
    pub fn draw_time(&mut self, date: &str, time: &str)
        ensures
            final(self).ops() == old(self).ops() + clock_frame(date@, time@),
            final(self).wallet() == old(self).wallet(),
            final(self).qr_view() == old(self).qr_view(),
    {
        self.create_black_rectangle();
        self.create_text(date, CLOCK_MARGIN, CLOCK_Y, Font::Small);
        let len = time.unicode_len();
        let x: u8 = if len as u64 <= DISPLAY_WIDTH && (len as u64) * 4 + (CLOCK_MARGIN as u64) <= DISPLAY_WIDTH {
            (DISPLAY_WIDTH - (len as u64) * 4 - CLOCK_MARGIN as u64) as u8
        } else {
            0
        };
        self.create_text(time, x, CLOCK_Y, Font::Small);
        assert(self.ops() =~= old(self).ops() + clock_frame(date@, time@));
    }

    /// The account balance in SOL, two decimals.
    pub fn show_balance(&mut self, balance: u64)
        ensures
            final(self).ops() == old(self).ops() + balance_frame(balance),
            final(self).wallet() == old(self).wallet(),
            final(self).qr_view() == old(self).qr_view(),
    {
        self.create_black_rectangle();
        self.centred_text("Sol Balance:", LABEL_Y, Font::Regular);
        let formatted = sol_balance_text(balance);
        self.centred_text(formatted.as_str(), VALUE_Y, Font::Regular);
        assert(self.ops() =~= old(self).ops() + balance_frame(balance));
    }

    /// The latest slot and the transactions per second.
    pub fn show_tps(&mut self, throughput: (u64, u64))
        ensures
            final(self).ops() == old(self).ops() + tps_frame(throughput.0, throughput.1),
            final(self).wallet() == old(self).wallet(),
            final(self).qr_view() == old(self).qr_view(),
    {
        let (slot, tps) = throughput;
        let slot_value_y = SLOT_LABEL_Y + LINE_STEP;
        let tps_label_y = slot_value_y + LINE_STEP + GROUP_GAP;
        let tps_value_y = tps_label_y + LINE_STEP;
        self.create_black_rectangle();
        self.centred_text("Slot:", SLOT_LABEL_Y, Font::Small);
        let slot_text = decimal_text(slot);
        self.centred_text(slot_text.as_str(), slot_value_y, Font::Regular);
        self.centred_text("TPS:", tps_label_y, Font::Small);
        let tps_text = decimal_text(tps);
        self.centred_text(tps_text.as_str(), tps_value_y, Font::Regular);
        assert(self.ops() =~= old(self).ops() + tps_frame(slot, tps));
    }

    /// The SOL price in US dollars, given in cents, two decimals.
    pub fn show_sol_usd_price(&mut self, price_cents: u64)
        ensures
            final(self).ops() == old(self).ops() + price_frame(price_cents),
            final(self).wallet() == old(self).wallet(),
            final(self).qr_view() == old(self).qr_view(),
    {
        self.create_black_rectangle();
        self.centred_text("Sol USD Price:", LABEL_Y, Font::Regular);
        let formatted = fixed2_text(price_cents);
        self.centred_text(formatted.as_str(), VALUE_Y, Font::Regular);
        assert(self.ops() =~= old(self).ops() + price_frame(price_cents));
    }
}

/// Left edge that centres `len` glyphs of width `w`.
fn centre_left(len: usize, w: u64) -> (r: u8)
    requires
        w == 4 || w == 6,
    ensures
        r as nat == centred_x(len as nat, w as nat),
{
    if len as u64 <= DISPLAY_WIDTH && (len as u64) * w <= DISPLAY_WIDTH {
        ((DISPLAY_WIDTH - (len as u64) * w) / 2) as u8
    } else {
        proof {
            if len as u64 > DISPLAY_WIDTH {
                assert(len * w > DISPLAY_WIDTH) by (nonlinear_arith)
                    requires len > DISPLAY_WIDTH, w >= 4;
            }
        }
        0
    }
}

} // verus!
