use vstd::prelude::*;

use std::str::FromStr;

verus! {

/// An ASCII decimal digit.
pub open spec fn is_decimal_digit(c: char) -> bool {
    '0' <= c && c <= '9'
}

/// The value of a string of decimal digits, most significant first.
pub open spec fn decimal_value(d: Seq<char>) -> nat
    decreases d.len(),
{
    if d.len() == 0 {
        0
    } else {
        decimal_value(d.drop_last()) * 10 + (d.last() as nat - '0' as nat) as nat
    }
}

/// The digits of a decimal text, after its optional leading `+`.
pub open spec fn unsigned_digits(s: Seq<char>) -> Seq<char> {
    if s.len() > 0 && s[0] == '+' {
        s.skip(1)
    } else {
        s
    }
}

/// The 16-bit unsigned number that a text denotes: an optional `+`, then one
/// or more ASCII decimal digits whose value fits in 16 bits. No sign `-`, no
/// space and no other character is accepted.
pub open spec fn parsed_u16(s: Seq<char>) -> Option<u16> {
    let d = unsigned_digits(s);
    if d.len() > 0 && (forall|i: int| 0 <= i < d.len() ==> is_decimal_digit(#[trigger] d[i]))
        && decimal_value(d) <= u16::MAX {
        Some(decimal_value(d) as u16)
    } else {
        None
    }
}

/// The number that a text denotes, or 0 where it denotes none.
pub open spec fn number_or_zero(s: Seq<char>) -> u16 {
    match parsed_u16(s) {
        Some(v) => v,
        None => 0,
    }
}

/// Relies on `u16::from_str`, which accepts an optional `+` followed by only
/// ASCII digits of a value up to `u16::MAX`, and fails on anything else.
#[verifier::external_body]
fn parse_u16(s: &str) -> (r: Option<u16>)
    ensures
        r == parsed_u16(s@),
{
    u16::from_str(s).ok()
}

/// Reads a number from a text, falling back to 0 where the text is not one.
pub fn parse_single_string(s1: String) -> (r: u16)
    ensures
        r == number_or_zero(s1@),
{
    match parse_u16(s1.as_str()) {
        Some(v) => v,
        None => 0,
    }
}

/// Reads a number from each of two texts, each falling back to 0 where the
/// text is not one.
pub fn parse_double_strings_into_numbers(s1: String, s2: String) -> (r: (u16, u16))
    ensures
        r == (number_or_zero(s1@), number_or_zero(s2@)),
{
    (parse_single_string(s1), parse_single_string(s2))
}

} // verus!
