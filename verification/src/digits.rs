//! Decimal rendering of fixed-point amounts.
//!
//! An amount is held in cents (hundredths of the quote currency). It renders
//! the way a plain decimal number would: `6500000` cents is `65000`, `1020`
//! cents is `10.2`, `599` cents is `5.99` — no trailing zero after the point,
//! no point at all for a whole amount.

use vstd::prelude::*;

verus! {

/// The character for one decimal digit.
pub open spec fn spec_digit_char(d: nat) -> char {
    if d == 0 {
        '0'
    } else if d == 1 {
        '1'
    } else if d == 2 {
        '2'
    } else if d == 3 {
        '3'
    } else if d == 4 {
        '4'
    } else if d == 5 {
        '5'
    } else if d == 6 {
        '6'
    } else if d == 7 {
        '7'
    } else if d == 8 {
        '8'
    } else {
        '9'
    }
}

/// The decimal digit string of `n`, most significant digit first, with no
/// leading zero except for `n == 0` itself.
pub open spec fn spec_decimal(n: nat) -> Seq<char>
    decreases n,
{
    if n < 10 {
        seq![spec_digit_char(n)]
    } else {
        spec_decimal(n / 10).push(spec_digit_char(n % 10))
    }
}

/// How an amount of `cents` renders as a decimal number of whole currency
/// units: the fractional part is dropped when zero, and a trailing zero cent
/// digit is dropped too.
pub open spec fn spec_amount(cents: nat) -> Seq<char> {
    let whole = cents / 100;
    let frac = cents % 100;
    if frac == 0 {
        spec_decimal(whole)
    } else if frac % 10 == 0 {
        spec_decimal(whole).push('.').push(spec_digit_char(frac / 10))
    } else {
        spec_decimal(whole).push('.').push(spec_digit_char(frac / 10)).push(
            spec_digit_char(frac % 10),
        )
    }
}

/// An amount prefixed with the currency sign, e.g. `$65000`.
pub open spec fn spec_currency(cents: nat) -> Seq<char> {
    seq!['$'].add(spec_amount(cents))
}

/// The one-character string for a decimal digit.
fn digit_str(d: u64) -> (r: &'static str)
    requires
        d < 10,
    ensures
        r@ =~= seq![spec_digit_char(d as nat)],
{
    proof {
        reveal_strlit("0");
        reveal_strlit("1");
        reveal_strlit("2");
        reveal_strlit("3");
        reveal_strlit("4");
        reveal_strlit("5");
        reveal_strlit("6");
        reveal_strlit("7");
        reveal_strlit("8");
        reveal_strlit("9");
    }
    if d == 0 {
        "0"
    } else if d == 1 {
        "1"
    } else if d == 2 {
        "2"
    } else if d == 3 {
        "3"
    } else if d == 4 {
        "4"
    } else if d == 5 {
        "5"
    } else if d == 6 {
        "6"
    } else if d == 7 {
        "7"
    } else if d == 8 {
        "8"
    } else {
        "9"
    }
}

/// Renders `n` as its decimal digit string.
pub fn u64_to_decimal(n: u64) -> (r: String)
    ensures
        r@ == spec_decimal(n as nat),
    decreases n,
{
    if n < 10 {
        digit_str(n).to_owned()
    } else {
        let mut s = u64_to_decimal(n / 10);
        s.append(digit_str(n % 10));
        proof {
            assert(s@ =~= spec_decimal(n as nat));
        }
        s
    }
}

/// Renders an amount of cents as a decimal number of whole units.
pub fn amount_text(cents: u64) -> (r: String)
    ensures
        r@ == spec_amount(cents as nat),
{
    let whole: u64 = cents / 100;
    let frac: u64 = cents % 100;
    let mut s = u64_to_decimal(whole);
    if frac != 0 {
        proof {
            reveal_strlit(".");
        }
        s.append(".");
        s.append(digit_str(frac / 10));
        if frac % 10 != 0 {
            s.append(digit_str(frac % 10));
        }
    }
    proof {
        assert(s@ =~= spec_amount(cents as nat));
    }
    s
}

/// Renders an amount of cents with the currency sign, e.g. `$65000`.
pub fn currency_text(cents: u64) -> (r: String)
    ensures
        r@ == spec_currency(cents as nat),
{
    proof {
        reveal_strlit("$");
    }
    let mut s: String = "$".to_owned();
    let amount = amount_text(cents);
    s.append(amount.as_str());
    proof {
        assert(s@ =~= spec_currency(cents as nat));
    }
    s
}

} // verus!
