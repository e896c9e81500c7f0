//! Character classes of the source language.
//!
//! Source text is expected to be plain ASCII: fields are separated by runs of
//! ASCII whitespace, labels open with an ASCII letter, and numbers are written
//! with ASCII digits and an optional sign.

use vstd::prelude::*;

verus! {

/// A field separator: one of the ASCII whitespace characters
/// (tab, line feed, vertical tab, form feed, carriage return, space).
pub open spec fn is_space(c: char) -> bool {
    c as u32 == 32 || (9 <= c as u32 && c as u32 <= 13)
}

/// The line terminator.
pub open spec fn is_newline(c: char) -> bool {
    c as u32 == 10
}

/// An ASCII letter, upper or lower case.
pub open spec fn is_alpha(c: char) -> bool {
    (65 <= c as u32 && c as u32 <= 90) || (97 <= c as u32 && c as u32 <= 122)
}

/// An ASCII decimal digit.
pub open spec fn is_digit(c: char) -> bool {
    48 <= c as u32 && c as u32 <= 57
}

/// The numeric value of a decimal digit.
pub open spec fn digit_val(c: char) -> int {
    c as u32 - 48
}

pub fn space_char(c: char) -> (r: bool)
    ensures
        r == is_space(c),
{
    let u = c as u32;
    u == 32 || (9 <= u && u <= 13)
}

pub fn newline_char(c: char) -> (r: bool)
    ensures
        r == is_newline(c),
{
    c as u32 == 10
}

pub fn alpha_char(c: char) -> (r: bool)
    ensures
        r == is_alpha(c),
{
    let u = c as u32;
    (65 <= u && u <= 90) || (97 <= u && u <= 122)
}

pub fn digit_char(c: char) -> (r: bool)
    ensures
        r == is_digit(c),
{
    let u = c as u32;
    48 <= u && u <= 57
}

} // verus!
