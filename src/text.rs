//! Decimal rendering of the values that appear on the screen.

use vstd::prelude::*;

verus! {

/// Lamports in one SOL.
pub const LAMPORTS_PER_SOL: u64 = 1_000_000_000;

/// Lamports in one hundredth of a SOL, the last digit shown.
pub const LAMPORTS_PER_HUNDREDTH: u64 = LAMPORTS_PER_SOL / 100;

/// The character of a decimal digit.
pub open spec fn digit_char(d: nat) -> char {
    if d == 0 {
        '0'
    } else if d == 1 {
        '1'
    } else if d == 2 {
        '2'
    } else if d == 3 {
        '3'
    } else if d == 4 {
        '4'
    } else if d == 5 {
        '5'
    } else if d == 6 {
        '6'
    } else if d == 7 {
        '7'
    } else if d == 8 {
        '8'
    } else {
        '9'
    }
}

/// The decimal notation of `n`, without leading zeros.
pub open spec fn dec_digits(n: nat) -> Seq<char>
    decreases n,
{
    if n < 10 {
        seq![digit_char(n)]
    } else {
        dec_digits(n / 10).push(digit_char(n % 10))
    }
}

/// The decimal notation of `n`, with a leading zero below ten.
pub open spec fn pad2(n: nat) -> Seq<char> {
    if n < 10 {
        seq!['0', digit_char(n)]
    } else {
        dec_digits(n)
    }
}

/// A count of hundredths written with two decimals: `250` is `2.50`.
pub open spec fn fixed2(hundredths: nat) -> Seq<char> {
    dec_digits(hundredths / 100) + seq!['.'] + pad2(hundredths % 100)
}

/// `n / d` rounded to the nearest integer, halves upwards.
pub open spec fn round_div(n: nat, d: nat) -> nat
    recommends
        d > 0,
{
    (n + d / 2) / d
}

/// A balance in lamports as SOL with two decimals.
pub open spec fn sol_text(lamports: nat) -> Seq<char> {
    fixed2(round_div(lamports, LAMPORTS_PER_HUNDREDTH as nat))
}

/// A date as `year-MM-DD`.
pub open spec fn date_text(year: nat, month: nat, day: nat) -> Seq<char> {
    dec_digits(year) + seq!['-'] + pad2(month) + seq!['-'] + pad2(day)
}

/// A time of day as `HH:MM:SS`.
pub open spec fn time_text(hour: nat, minute: nat, second: nat) -> Seq<char> {
    pad2(hour) + seq![':'] + pad2(minute) + seq![':'] + pad2(second)
}

fn digit_str(d: u64) -> (r: &'static str)
    requires
        d < 10,
    ensures
        r@ == seq![digit_char(d as nat)],
{
    proof {
        reveal_strlit("0");
        reveal_strlit("1");
        reveal_strlit("2");
        reveal_strlit("3");
        reveal_strlit("4");
        reveal_strlit("5");
        reveal_strlit("6");
        reveal_strlit("7");
        reveal_strlit("8");
        reveal_strlit("9");
    }
    if d == 0 {
        "0"
    } else if d == 1 {
        "1"
    } else if d == 2 {
        "2"
    } else if d == 3 {
        "3"
    } else if d == 4 {
        "4"
    } else if d == 5 {
        "5"
    } else if d == 6 {
        "6"
    } else if d == 7 {
        "7"
    } else if d == 8 {
        "8"
    } else {
        "9"
    }
}

/// Appends the decimal notation of `n` to `s`.
pub fn push_decimal(s: &mut String, n: u64)
    ensures
        final(s)@ == old(s)@ + dec_digits(n as nat),
    decreases n,
{
    if n >= 10 {
        push_decimal(s, n / 10);
    }
    s.append(digit_str(n % 10));
    proof {
        if n >= 10 {
            assert(old(s)@ + dec_digits(n as nat) =~= old(s)@ + dec_digits((n / 10) as nat) + seq![
                digit_char((n % 10) as nat),
            ]);
        } else {
            assert(dec_digits(n as nat) == seq![digit_char(n as nat)]);
        }
    }
}

/// Appends `n` with at least two digits to `s`.
pub fn push_pad2(s: &mut String, n: u64)
    ensures
        final(s)@ == old(s)@ + pad2(n as nat),
{
    if n < 10 {
        s.append(digit_str(0));
        s.append(digit_str(n));
        assert(final(s)@ =~= old(s)@ + pad2(n as nat)) by {
            assert(seq![digit_char(0)] + seq![digit_char(n as nat)] =~= seq!['0', digit_char(n as nat)]);
        }
    } else {
        push_decimal(s, n);
    }
}

/// The decimal notation of `n`.
pub fn decimal_text(n: u64) -> (r: String)
    ensures
        r@ == dec_digits(n as nat),
{
    let mut s = String::new();
    push_decimal(&mut s, n);
    assert(s@ =~= dec_digits(n as nat));
    s
}

/// A count of hundredths with two decimals: `250` gives `2.50`.
pub fn fixed2_text(hundredths: u64) -> (r: String)
    ensures
        r@ == fixed2(hundredths as nat),
{
    let mut s = String::new();
    push_decimal(&mut s, hundredths / 100);
    proof {
        reveal_strlit(".");
    }
    s.append(".");
    push_pad2(&mut s, hundredths % 100);
    assert(s@ =~= fixed2(hundredths as nat));
    s
}

/// A balance in lamports as SOL, rounded to two decimals:
/// `2_500_000_000` gives `2.50`.
pub fn sol_balance_text(lamports: u64) -> (r: String)
    ensures
        r@ == sol_text(lamports as nat),
{
    let whole = lamports / LAMPORTS_PER_HUNDREDTH;
    let rest = lamports % LAMPORTS_PER_HUNDREDTH;
    let hundredths: u64 = if rest >= LAMPORTS_PER_HUNDREDTH / 2 {
        whole + 1
    } else {
        whole
    };
    assert(hundredths as nat == round_div(lamports as nat, LAMPORTS_PER_HUNDREDTH as nat)) by {
        let n = lamports as int;
        let d = LAMPORTS_PER_HUNDREDTH as int;
        assert(n == d * (n / d) + n % d);
        vstd::arithmetic::div_mod::lemma_fundamental_div_mod_converse(
            n + d / 2,
            d,
            if n % d >= d / 2 { n / d + 1 } else { n / d },
            if n % d >= d / 2 { n % d - d / 2 } else { n % d + d / 2 },
        );
    }
    fixed2_text(hundredths)
}

/// A date as `year-MM-DD`.
pub fn format_date(year: u64, month: u64, day: u64) -> (r: String)
    ensures
        r@ == date_text(year as nat, month as nat, day as nat),
{
    let mut s = String::new();
    push_decimal(&mut s, year);
    proof {
        reveal_strlit("-");
    }
    s.append("-");
    push_pad2(&mut s, month);
    s.append("-");
    push_pad2(&mut s, day);
    assert(s@ =~= date_text(year as nat, month as nat, day as nat));
    s
}

/// A time of day as `HH:MM:SS`.
pub fn format_time(hour: u64, minute: u64, second: u64) -> (r: String)
    ensures
        r@ == time_text(hour as nat, minute as nat, second as nat),
{
    let mut s = String::new();
    push_pad2(&mut s, hour);
    proof {
        reveal_strlit(":");
    }
    s.append(":");
    push_pad2(&mut s, minute);
    s.append(":");
    push_pad2(&mut s, second);
    assert(s@ =~= time_text(hour as nat, minute as nat, second as nat));
    s
}

} // verus!
