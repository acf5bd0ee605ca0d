//! Numbers as text: the upper-case hexadecimal and the decimal notation
//! in which items and unnamed usages are shown.

use vstd::prelude::*;

verus! {

/// The digit that stands for a value below sixteen: `0` to `9`, then `A`
/// to `F`.
pub open spec fn digit_char(d: int) -> char {
    if d == 0 {
        '0'
    } else if d == 1 {
        '1'
    } else if d == 2 {
        '2'
    } else if d == 3 {
        '3'
    } else if d == 4 {
        '4'
    } else if d == 5 {
        '5'
    } else if d == 6 {
        '6'
    } else if d == 7 {
        '7'
    } else if d == 8 {
        '8'
    } else if d == 9 {
        '9'
    } else if d == 10 {
        'A'
    } else if d == 11 {
        'B'
    } else if d == 12 {
        'C'
    } else if d == 13 {
        'D'
    } else if d == 14 {
        'E'
    } else {
        'F'
    }
}

/// The hexadecimal digits of `v`, most significant first, without
/// leading zeros; zero is the single digit `0`.
pub open spec fn hex_digits(v: nat) -> Seq<char>
    decreases v,
{
    if v < 16 {
        seq![digit_char(v as int)]
    } else {
        hex_digits(v / 16).push(digit_char((v % 16) as int))
    }
}

/// `0x` followed by the hexadecimal digits of `v`, at least two of them.
pub open spec fn hex_text(v: u32) -> Seq<char> {
    if v < 16 {
        seq!['0', 'x', '0', digit_char(v as int)]
    } else {
        seq!['0', 'x'] + hex_digits(v as nat)
    }
}

/// The decimal digits of `v`, most significant first, without leading
/// zeros; zero is the single digit `0`.
pub open spec fn decimal_digits(v: nat) -> Seq<char>
    decreases v,
{
    if v < 10 {
        seq![digit_char(v as int)]
    } else {
        decimal_digits(v / 10).push(digit_char((v % 10) as int))
    }
}

/// The decimal notation of `v`, with a minus sign where it is negative.
pub open spec fn decimal_text(v: int) -> Seq<char> {
    if v < 0 {
        seq!['-'] + decimal_digits((-v) as nat)
    } else {
        decimal_digits(v as nat)
    }
}

/// `label` followed by the decimal notation of `v`.
pub open spec fn labelled_text(label: Seq<char>, v: u32) -> Seq<char> {
    label + decimal_text(v as int)
}

/// The hexadecimal notations of `a` and `b` with a hyphen between them.
pub open spec fn hex_pair_text(a: u32, b: u32) -> Seq<char> {
    hex_text(a) + seq!['-'] + hex_text(b)
}

/// `label`, a space, and `inner` in round brackets.
pub open spec fn bracketed_text(label: Seq<char>, inner: Seq<char>) -> Seq<char> {
    label + seq![' ', '('] + inner + seq![')']
}

fn digit_str(d: u32) -> (s: &'static str)
    requires
        d < 16,
    ensures
        s@ == seq![digit_char(d as int)],
{
    proof {
        reveal_strlit("0");
        reveal_strlit("1");
        reveal_strlit("2");
        reveal_strlit("3");
        reveal_strlit("4");
        reveal_strlit("5");
        reveal_strlit("6");
        reveal_strlit("7");
        reveal_strlit("8");
        reveal_strlit("9");
        reveal_strlit("A");
        reveal_strlit("B");
        reveal_strlit("C");
        reveal_strlit("D");
        reveal_strlit("E");
        reveal_strlit("F");
    }
    let s = if d == 0 {
        "0"
    } else if d == 1 {
        "1"
    } else if d == 2 {
        "2"
    } else if d == 3 {
        "3"
    } else if d == 4 {
        "4"
    } else if d == 5 {
        "5"
    } else if d == 6 {
        "6"
    } else if d == 7 {
        "7"
    } else if d == 8 {
        "8"
    } else if d == 9 {
        "9"
    } else if d == 10 {
        "A"
    } else if d == 11 {
        "B"
    } else if d == 12 {
        "C"
    } else if d == 13 {
        "D"
    } else if d == 14 {
        "E"
    } else {
        "F"
    };
    s
}

fn append_hex_digits(out: &mut String, v: u32)
    ensures
        final(out)@ == old(out)@ + hex_digits(v as nat),
    decreases v,
{
    if v >= 16 {
        append_hex_digits(out, v / 16);
    }
    out.append(digit_str(v % 16));
}

fn append_decimal_digits(out: &mut String, v: u64)
    ensures
        final(out)@ == old(out)@ + decimal_digits(v as nat),
    decreases v,
{
    if v >= 10 {
        append_decimal_digits(out, v / 10);
    }
    out.append(digit_str((v % 10) as u32));
}

/// Writes `v` as `0x` and at least two upper-case hexadecimal digits.
pub fn format_hex(v: u32) -> (text: String)
    ensures
        text@ == hex_text(v),
{
    proof {
        reveal_strlit("0x");
        reveal_strlit("0x0");
    }
    let mut text = if v < 16 {
        String::from_str("0x0")
    } else {
        String::from_str("0x")
    };
    append_hex_digits(&mut text, v);
    text
}

/// Writes `v` in decimal notation.
pub fn format_unsigned(v: u32) -> (text: String)
    ensures
        text@ == decimal_text(v as int),
{
    let mut text = String::new();
    append_decimal_digits(&mut text, v as u64);
    text
}

/// Writes `v` in decimal notation, with a minus sign where it is negative.
pub fn format_signed(v: i32) -> (text: String)
    ensures
        text@ == decimal_text(v as int),
{
    proof {
        reveal_strlit("-");
    }
    let mut text = String::new();
    if v < 0 {
        text.append("-");
        let magnitude: i64 = -(v as i64);
        append_decimal_digits(&mut text, magnitude as u64);
    } else {
        append_decimal_digits(&mut text, v as u64);
    }
    text
}

/// Writes `label` and then `v` in decimal notation.
pub fn format_labelled(label: &str, v: u32) -> (text: String)
    ensures
        text@ == labelled_text(label@, v),
{
    let mut text = String::from_str(label);
    append_decimal_digits(&mut text, v as u64);
    text
}

/// Writes `a` and `b` in hexadecimal notation with a hyphen between them.
pub fn format_hex_pair(a: u32, b: u32) -> (text: String)
    ensures
        text@ == hex_pair_text(a, b),
{
    proof {
        reveal_strlit("-");
    }
    let mut text = format_hex(a);
    text.append("-");
    let second = format_hex(b);
    text.append(second.as_str());
    text
}

/// Writes `label`, a space, and `inner` in round brackets.
pub fn format_bracketed(label: &str, inner: &str) -> (text: String)
    ensures
        text@ == bracketed_text(label@, inner@),
{
    proof {
        reveal_strlit(" (");
        reveal_strlit(")");
    }
    let mut text = String::from_str(label);
    text.append(" (");
    text.append(inner);
    text.append(")");
    text
}

} // verus!
