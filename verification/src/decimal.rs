//! Decimal rendering of integers, for the textual exporters.

use vstd::prelude::*;

verus! {

/// The decimal digit character for a value below ten.
pub open spec fn spec_digit(d: int) -> char {
    if d == 0 {
        '0'
    } else if d == 1 {
        '1'
    } else if d == 2 {
        '2'
    } else if d == 3 {
        '3'
    } else if d == 4 {
        '4'
    } else if d == 5 {
        '5'
    } else if d == 6 {
        '6'
    } else if d == 7 {
        '7'
    } else if d == 8 {
        '8'
    } else {
        '9'
    }
}

/// The decimal digits of a nonnegative value, most significant first.
pub open spec fn spec_udec(n: int) -> Seq<char>
    decreases n,
{
    if n < 10 {
        seq![spec_digit(n)]
    } else {
        spec_udec(n / 10).push(spec_digit(n % 10))
    }
}

/// The decimal rendering of a signed value: a minus sign for negative
/// values, then the digits of the magnitude.
pub open spec fn spec_idec(n: int) -> Seq<char> {
    if n < 0 {
        seq!['-'].add(spec_udec(-n))
    } else {
        spec_udec(n)
    }
}

fn digit_str(d: u32) -> (r: &'static str)
    requires
        d < 10,
    ensures
        r@ == seq![spec_digit(d as int)],
{
    proof {
        reveal_strlit("0");
        reveal_strlit("1");
        reveal_strlit("2");
        reveal_strlit("3");
        reveal_strlit("4");
        reveal_strlit("5");
        reveal_strlit("6");
        reveal_strlit("7");
        reveal_strlit("8");
        reveal_strlit("9");
    }
    if d == 0 {
        "0"
    } else if d == 1 {
        "1"
    } else if d == 2 {
        "2"
    } else if d == 3 {
        "3"
    } else if d == 4 {
        "4"
    } else if d == 5 {
        "5"
    } else if d == 6 {
        "6"
    } else if d == 7 {
        "7"
    } else if d == 8 {
        "8"
    } else {
        "9"
    }
}

/// Render a nonnegative value in decimal.
pub fn u32_dec(n: u32) -> (r: String)
    ensures
        r@ == spec_udec(n as int),
    decreases n,
{
    if n < 10 {
        digit_str(n).to_owned()
    } else {
        let mut s = u32_dec(n / 10);
        s.append(digit_str(n % 10));
        proof {
            assert(s@ =~= spec_udec(n as int));
        }
        s
    }
}

/// Render a signed value in decimal.
pub fn i32_dec(n: i32) -> (r: String)
    ensures
        r@ == spec_idec(n as int),
{
    if n >= 0 {
        u32_dec(n as u32)
    } else {
        proof {
            reveal_strlit("-");
        }
        let mut s = String::from_str("-");
        let mag: u32 = if n == i32::MIN {
            0x8000_0000u32
        } else {
            (-n) as u32
        };
        s.append(u32_dec(mag).as_str());
        proof {
            assert(s@ =~= spec_idec(n as int));
        }
        s
    }
}

/// Render a boolean as JSON text.
pub fn bool_text(b: bool) -> (r: &'static str)
    ensures
        b ==> r@ == "true"@,
        !b ==> r@ == "false"@,
{
    if b {
        "true"
    } else {
        "false"
    }
}

} // verus!
