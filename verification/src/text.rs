//! Decimal text: how identifiers and amounts are written out.

use vstd::prelude::*;
use vstd::string::StringExecFns;
use vstd::string::StringSliceAdditionalSpecFns;
use vstd::utf8::encode_utf8_decode_utf8;

verus! {

/// The character that stands for the digit `d`, for `0 <= d <= 9`.
pub open spec fn digit_char(d: int) -> char {
    if d == 0 {
        '0'
    } else if d == 1 {
        '1'
    } else if d == 2 {
        '2'
    } else if d == 3 {
        '3'
    } else if d == 4 {
        '4'
    } else if d == 5 {
        '5'
    } else if d == 6 {
        '6'
    } else if d == 7 {
        '7'
    } else if d == 8 {
        '8'
    } else {
        '9'
    }
}

/// The decimal numeral of `n`, most significant digit first, without
/// leading zeros.
pub open spec fn decimal(n: nat) -> Seq<char>
    decreases n,
{
    if n < 10 {
        seq![digit_char(n as int)]
    } else {
        decimal(n / 10).push(digit_char((n % 10) as int))
    }
}

/// The fractional part of an amount, for `f` ten-thousandths with
/// `0 <= f < 10000`: nothing when `f` is zero, otherwise a point followed by
/// the four digits of `f` without their trailing zeros.
pub open spec fn fraction(f: nat) -> Seq<char> {
    if f == 0 {
        Seq::empty()
    } else if f % 1000 == 0 {
        seq!['.', digit_char((f / 1000) as int)]
    } else if f % 100 == 0 {
        seq!['.', digit_char((f / 1000) as int), digit_char((f / 100 % 10) as int)]
    } else if f % 10 == 0 {
        seq![
            '.',
            digit_char((f / 1000) as int),
            digit_char((f / 100 % 10) as int),
            digit_char((f / 10 % 10) as int),
        ]
    } else {
        seq![
            '.',
            digit_char((f / 1000) as int),
            digit_char((f / 100 % 10) as int),
            digit_char((f / 10 % 10) as int),
            digit_char((f % 10) as int),
        ]
    }
}

/// The text of an amount of `v` ten-thousandths: a minus sign when `v` is
/// negative, the whole part as a decimal numeral, then the fractional part.
pub open spec fn amount_text(v: int) -> Seq<char> {
    let magnitude = (if v < 0 { -v } else { v }) as nat;
    let digits = decimal(magnitude / 10000) + fraction(magnitude % 10000);
    if v < 0 {
        seq!['-'] + digits
    } else {
        digits
    }
}

/// The text of a truth value.
pub open spec fn bool_text(b: bool) -> Seq<char> {
    if b {
        seq!['t', 'r', 'u', 'e']
    } else {
        seq!['f', 'a', 'l', 's', 'e']
    }
}

/// Whether two strings hold the same characters.
pub fn same_text(a: &str, b: &str) -> (same: bool)
    ensures
        same == (a@ == b@),
{
    let x = a.as_bytes();
    let y = b.as_bytes();
    proof {
        encode_utf8_decode_utf8(a@);
        encode_utf8_decode_utf8(b@);
    }
    if x.len() != y.len() {
        return false;
    }
    let mut i: usize = 0;
    while i < x.len()
        invariant
            i <= x.len(),
            x.len() == y.len(),
            x@ == a.spec_bytes(),
            y@ == b.spec_bytes(),
            forall|j: int| 0 <= j < i ==> x@[j] == y@[j],
        decreases x.len() - i,
    {
        if x[i] != y[i] {
            return false;
        }
        i += 1;
    }
    assert(x@ =~= y@);
    true
}

/// The digit `d` as a string of one character.
fn digit_text(d: u8) -> (s: &'static str)
    requires
        d < 10,
    ensures
        s@ == seq![digit_char(d as int)],
{
    proof {
        reveal_strlit("0");
        reveal_strlit("1");
        reveal_strlit("2");
        reveal_strlit("3");
        reveal_strlit("4");
        reveal_strlit("5");
        reveal_strlit("6");
        reveal_strlit("7");
        reveal_strlit("8");
        reveal_strlit("9");
    }
    match d {
        0 => "0",
        1 => "1",
        2 => "2",
        3 => "3",
        4 => "4",
        5 => "5",
        6 => "6",
        7 => "7",
        8 => "8",
        _ => "9",
    }
}

/// Appends the decimal numeral of `n` to `out`.
pub fn push_decimal(out: &mut String, n: u128)
    ensures
        final(out)@ == old(out)@ + decimal(n as nat),
    decreases n,
{
    if n >= 10 {
        push_decimal(out, n / 10);
    }
    out.append(digit_text((n % 10) as u8));
}

/// Appends the fractional part of an amount to `out`.
fn push_fraction(out: &mut String, f: u16)
    requires
        f < 10000,
    ensures
        final(out)@ == old(out)@ + fraction(f as nat),
{
    if f != 0 {
        proof {
            reveal_strlit(".");
        }
        out.append(".");
        out.append(digit_text((f / 1000) as u8));
        if f % 1000 != 0 {
            out.append(digit_text((f / 100 % 10) as u8));
            if f % 100 != 0 {
                out.append(digit_text((f / 10 % 10) as u8));
                if f % 10 != 0 {
                    out.append(digit_text((f % 10) as u8));
                }
            }
        }
    }
}

/// Appends the text of an amount of `v` ten-thousandths to `out`.
pub fn push_amount(out: &mut String, v: i128)
    ensures
        final(out)@ == old(out)@ + amount_text(v as int),
{
    let magnitude: u128 = if v < 0 {
        proof {
            reveal_strlit("-");
        }
        out.append("-");
        // One less than the magnitude always fits.
        (-(v + 1)) as u128 + 1
    } else {
        v as u128
    };
    push_decimal(out, magnitude / 10000);
    push_fraction(out, (magnitude % 10000) as u16);
}

/// Appends `true` or `false` to `out`.
pub fn push_bool(out: &mut String, b: bool)
    ensures
        final(out)@ == old(out)@ + bool_text(b),
{
    proof {
        reveal_strlit("true");
        reveal_strlit("false");
    }
    if b {
        out.append("true");
    } else {
        out.append("false");
    }
}

} // verus!
