//! The text of a report: decimal numbers and the lines built from them.

use vstd::prelude::*;
use vstd::string::StringExecFns;

verus! {

/// The character that stands for a digit below ten.
pub open spec fn digit_char(d: nat) -> char {
    if d == 0 {
        '0'
    } else if d == 1 {
        '1'
    } else if d == 2 {
        '2'
    } else if d == 3 {
        '3'
    } else if d == 4 {
        '4'
    } else if d == 5 {
        '5'
    } else if d == 6 {
        '6'
    } else if d == 7 {
        '7'
    } else if d == 8 {
        '8'
    } else {
        '9'
    }
}

/// A number written in base ten, most significant digit first, without
/// leading zeros; zero is written as `0`.
pub open spec fn decimal_text(n: nat) -> Seq<char>
    decreases n,
{
    if n < 10 {
        seq![digit_char(n)]
    } else {
        decimal_text(n / 10).push(digit_char(n % 10))
    }
}

/// `<label> encode time: <millis>, size: <size>`
pub open spec fn encode_line_text(label: Seq<char>, millis: nat, size: nat) -> Seq<char> {
    label + " encode time: "@ + decimal_text(millis) + ", size: "@ + decimal_text(size)
}

/// `<label> decode time: <millis>`
pub open spec fn decode_line_text(label: Seq<char>, millis: nat) -> Seq<char> {
    label + " decode time: "@ + decimal_text(millis)
}

fn digit_str(d: u8) -> (s: &'static str)
    requires
        d < 10,
    ensures
        s@ == seq![digit_char(d as nat)],
{
    proof {
        reveal_strlit("0");
        reveal_strlit("1");
        reveal_strlit("2");
        reveal_strlit("3");
        reveal_strlit("4");
        reveal_strlit("5");
        reveal_strlit("6");
        reveal_strlit("7");
        reveal_strlit("8");
        reveal_strlit("9");
    }
    let s = if d == 0 {
        "0"
    } else if d == 1 {
        "1"
    } else if d == 2 {
        "2"
    } else if d == 3 {
        "3"
    } else if d == 4 {
        "4"
    } else if d == 5 {
        "5"
    } else if d == 6 {
        "6"
    } else if d == 7 {
        "7"
    } else if d == 8 {
        "8"
    } else {
        "9"
    };
    assert(s@ =~= seq![digit_char(d as nat)]);
    s
}

/// Writes `n` in base ten.
pub fn to_decimal(n: u128) -> (s: String)
    ensures
        s@ == decimal_text(n as nat),
    decreases n,
{
    if n < 10 {
        String::from_str(digit_str(n as u8))
    } else {
        let mut s = to_decimal(n / 10);
        s.append(digit_str((n % 10) as u8));
        assert(s@ =~= decimal_text((n / 10) as nat).push(digit_char((n % 10) as nat)));
        s
    }
}

/// The line that reports an encoding: how long it took and how many bytes
/// came out.
pub fn encode_line(label: &str, millis: u128, size: usize) -> (line: String)
    ensures
        line@ == encode_line_text(label@, millis as nat, size as nat),
{
    let mut line = String::from_str(label);
    line.append(" encode time: ");
    let ms = to_decimal(millis);
    line.append(ms.as_str());
    line.append(", size: ");
    let sz = to_decimal(size as u128);
    line.append(sz.as_str());
    line
}

/// The line that reports a decoding: how long it took.
pub fn decode_line(label: &str, millis: u128) -> (line: String)
    ensures
        line@ == decode_line_text(label@, millis as nat),
{
    let mut line = String::from_str(label);
    line.append(" decode time: ");
    let ms = to_decimal(millis);
    line.append(ms.as_str());
    line
}

} // verus!
