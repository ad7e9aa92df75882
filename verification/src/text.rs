//! Text forms of values, for messages.

use vstd::prelude::*;
use vstd::string::StringExecFns;

verus! {

/// The `Debug` form of a character: the character between single quotes,
/// escaped where it cannot stand for itself.
pub uninterp spec fn debug_char_text(character: char) -> Seq<char>;

/// The `Debug` form of a text: the text between double quotes, escaped
/// where a character cannot stand for itself.
pub uninterp spec fn debug_str_text(text: Seq<char>) -> Seq<char>;

/// `format!` with `{:?}` on a `char`: returns the character's `Debug` form.
#[verifier::external_body]
pub(crate) fn debug_char(character: char) -> (text: String)
    ensures
        text@ == debug_char_text(character),
{
    format!("{:?}", character)
}

/// `format!` with `{:?}` on a `str`: returns the text's `Debug` form.
#[verifier::external_body]
pub(crate) fn debug_str(text: &str) -> (quoted: String)
    ensures
        quoted@ == debug_str_text(text@),
{
    format!("{:?}", text)
}

/// The text `inner` with `before` in front of it and `after` behind it.
pub fn enclose(before: &str, inner: &str, after: &str) -> (text: String)
    ensures
        text@ == before@ + inner@ + after@,
{
    let mut text = String::from_str(before);
    text.append(inner);
    text.append(after);
    text
}

/// The digit of a number below sixteen, in upper case.
pub open spec fn hex_digit_text(digit: nat) -> Seq<char> {
    if digit == 0 {
        "0"@
    } else if digit == 1 {
        "1"@
    } else if digit == 2 {
        "2"@
    } else if digit == 3 {
        "3"@
    } else if digit == 4 {
        "4"@
    } else if digit == 5 {
        "5"@
    } else if digit == 6 {
        "6"@
    } else if digit == 7 {
        "7"@
    } else if digit == 8 {
        "8"@
    } else if digit == 9 {
        "9"@
    } else if digit == 10 {
        "A"@
    } else if digit == 11 {
        "B"@
    } else if digit == 12 {
        "C"@
    } else if digit == 13 {
        "D"@
    } else if digit == 14 {
        "E"@
    } else {
        "F"@
    }
}

/// The digits of a number to base sixteen, in upper case and without
/// leading zeros.
pub open spec fn upper_hex_text(value: nat) -> Seq<char>
    decreases value,
{
    if value < 16 {
        hex_digit_text(value)
    } else {
        upper_hex_text(value / 16) + hex_digit_text(value % 16)
    }
}

fn hex_digit(digit: u32) -> (text: &'static str)
    requires
        digit < 16,
    ensures
        text@ == hex_digit_text(digit as nat),
{
    match digit {
        0 => "0",
        1 => "1",
        2 => "2",
        3 => "3",
        4 => "4",
        5 => "5",
        6 => "6",
        7 => "7",
        8 => "8",
        9 => "9",
        10 => "A",
        11 => "B",
        12 => "C",
        13 => "D",
        14 => "E",
        _ => "F",
    }
}

/// Writes a number to base sixteen, in upper case and without leading
/// zeros.
pub fn upper_hex(value: u32) -> (text: String)
    ensures
        text@ == upper_hex_text(value as nat),
    decreases value,
{
    if value < 16 {
        String::from_str(hex_digit(value))
    } else {
        let mut text = upper_hex(value / 16);
        text.append(hex_digit(value % 16));
        text
    }
}

} // verus!
