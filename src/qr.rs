//! The wallet address as a QR code module matrix, through qrcodegen.

use vstd::prelude::*;


verus! {

/// Longest text that qrcodegen guarantees to encode at the low
/// error-correction level, in characters.
pub const QR_TEXT_CAPACITY: usize = 738;

/// Largest side of a QR code, in modules.
pub const QR_MAX_SIZE: i32 = 177;

#[verifier::external_type_specification]
#[verifier::external_body]
pub struct ExQrCode(qrcodegen::QrCode);

/// Relies on `qrcodegen::QrCode::size`: a side between 21 and 177 modules.
pub assume_specification[ qrcodegen::QrCode::size ](q: &qrcodegen::QrCode) -> (r: i32)
    ensures
        21 <= r <= 177,
;

/// Relies on `qrcodegen::QrCode::get_module`: whether a module is dark.
pub assume_specification[ qrcodegen::QrCode::get_module ](q: &qrcodegen::QrCode, x: i32, y: i32) -> bool;

/// Relies on `qrcodegen::QrCode::encode_text` at the low error-correction
/// level, which succeeds for any text of at most 738 characters.
#[verifier::external_body]
fn encode_low_ecc(text: &str) -> (r: Option<qrcodegen::QrCode>)
    ensures
        text@.len() <= QR_TEXT_CAPACITY ==> r.is_some(),
{
    qrcodegen::QrCode::encode_text(text, qrcodegen::QrCodeEcc::Low).ok()
}

/// A square matrix of at most `QR_MAX_SIZE` rows, the shape of a QR code.
pub open spec fn is_qr_matrix(m: Seq<Vec<bool>>) -> bool {
    &&& m.len() <= QR_MAX_SIZE
    &&& forall|y: int| 0 <= y < m.len() ==> (#[trigger] m[y])@.len() == m.len()
}

/// Reads the modules of a code, row by row.
fn module_rows(q: &qrcodegen::QrCode) -> (r: Vec<Vec<bool>>)
    ensures
        21 <= r@.len() <= QR_MAX_SIZE,
        is_qr_matrix(r@),
{
    let n = q.size();
    let mut rows: Vec<Vec<bool>> = Vec::new();
    let mut y: i32 = 0;
    while y < n
        invariant
            21 <= n <= QR_MAX_SIZE,
            0 <= y <= n,
            rows@.len() == y,
            forall|i: int| 0 <= i < y ==> (#[trigger] rows@[i])@.len() == n,
        decreases n - y,
    {
        let mut row: Vec<bool> = Vec::new();
        let mut x: i32 = 0;
        while x < n
            invariant
                0 <= x <= n,
                row@.len() == x,
            decreases n - x,
        {
            row.push(q.get_module(x, y));
            x = x + 1;
        }
        rows.push(row);
        y = y + 1;
    }
    rows
}

/// The module matrix of a QR code, row by row; empty where the text did not
/// fit in a code.
pub struct QrMatrix {
    rows: Vec<Vec<bool>>,
}

impl QrMatrix {
    #[verifier::type_invariant]
    spec fn inv(&self) -> bool {
        is_qr_matrix(self.rows@)
    }

    /// The rows, each as long as there are rows.
    pub fn rows(&self) -> (r: &Vec<Vec<bool>>)
        ensures
            r@ == self@,
            is_qr_matrix(r@),
    {
        proof {
            use_type_invariant(self);
        }
        &self.rows
    }
}

impl View for QrMatrix {
    type V = Seq<Vec<bool>>;

    closed spec fn view(&self) -> Seq<Vec<bool>> {
        self.rows@
    }
}

/// The module matrix of `text` encoded at the low error-correction level,
/// or an empty matrix where the text does not fit in a QR code.
pub fn qr_matrix(text: &str) -> (r: QrMatrix)
    ensures
        text@.len() <= QR_TEXT_CAPACITY ==> 21 <= r@.len(),
{
    let rows = match encode_low_ecc(text) {
        Some(q) => module_rows(&q),
        None => Vec::new(),
    };
    QrMatrix { rows }
}

} // verus!
