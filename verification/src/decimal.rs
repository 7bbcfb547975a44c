//! Numbers written in base ten.

use vstd::prelude::*;
use vstd::string::StringExecFns;

verus! {

/// The character that stands for a digit from 0 to 9.
pub open spec fn digit_char(d: nat) -> char {
    if d == 0 {
        '0'
    } else if d == 1 {
        '1'
    } else if d == 2 {
        '2'
    } else if d == 3 {
        '3'
    } else if d == 4 {
        '4'
    } else if d == 5 {
        '5'
    } else if d == 6 {
        '6'
    } else if d == 7 {
        '7'
    } else if d == 8 {
        '8'
    } else {
        '9'
    }
}

/// A number in base ten, most significant digit first, without leading
/// zeros; zero is written `0`.
pub open spec fn decimal_text(n: nat) -> Seq<char>
    decreases n,
{
    if n < 10 {
        seq![digit_char(n)]
    } else {
        decimal_text(n / 10).push(digit_char(n % 10))
    }
}

/// The text of one digit.
fn digit_str(d: u8) -> (text: &'static str)
    requires
        d < 10,
    ensures
        text@ == seq![digit_char(d as nat)],
{
    proof {
        reveal_strlit("0");
        reveal_strlit("1");
        reveal_strlit("2");
        reveal_strlit("3");
        reveal_strlit("4");
        reveal_strlit("5");
        reveal_strlit("6");
        reveal_strlit("7");
        reveal_strlit("8");
        reveal_strlit("9");
    }
    let text = if d == 0 {
        "0"
    } else if d == 1 {
        "1"
    } else if d == 2 {
        "2"
    } else if d == 3 {
        "3"
    } else if d == 4 {
        "4"
    } else if d == 5 {
        "5"
    } else if d == 6 {
        "6"
    } else if d == 7 {
        "7"
    } else if d == 8 {
        "8"
    } else {
        "9"
    };
    assert(text@ =~= seq![digit_char(d as nat)]);
    text
}

/// Writes a number in base ten.
pub fn u64_to_string(value: u64) -> (text: String)
    ensures
        text@ == decimal_text(value as nat),
{
    let mut rest: u64 = value / 10;
    let mut text = String::from_str(digit_str((value % 10) as u8));
    while rest > 0
        invariant
            rest > 0 ==> decimal_text(value as nat) == decimal_text(rest as nat) + text@,
            rest == 0 ==> decimal_text(value as nat) == text@,
        decreases rest,
    {
        let digit = digit_str((rest % 10) as u8);
        proof {
            let shown = decimal_text(rest as nat);
            if rest >= 10 {
                assert(shown.push(digit_char((rest % 10) as nat)) =~= shown + digit@);
                assert(decimal_text(value as nat) =~= decimal_text((rest / 10) as nat) + (digit@
                    + text@));
            }
        }
        text = String::from_str(digit).concat(text.as_str());
        rest = rest / 10;
    }
    text
}

/// Writes a number in base ten.
pub fn u32_to_string(value: u32) -> (text: String)
    ensures
        text@ == decimal_text(value as nat),
{
    u64_to_string(value as u64)
}

/// Writes a number in base ten.
pub fn u8_to_string(value: u8) -> (text: String)
    ensures
        text@ == decimal_text(value as nat),
{
    u64_to_string(value as u64)
}

/// A whole number in base ten: a `-` where it is negative, then its size.
pub open spec fn signed_decimal_text(n: int) -> Seq<char> {
    if n < 0 {
        seq!['-'] + decimal_text((-n) as nat)
    } else {
        decimal_text(n as nat)
    }
}

/// Writes a whole number in base ten.
pub fn i32_to_string(value: i32) -> (text: String)
    ensures
        text@ == signed_decimal_text(value as int),
{
    if value < 0 {
        proof {
            reveal_strlit("-");
            assert("-"@ =~= seq!['-']);
        }
        let size: u64 = (-(value as i64)) as u64;
        String::from_str("-").concat(u64_to_string(size).as_str())
    } else {
        u64_to_string(value as u64)
    }
}

} // verus!
