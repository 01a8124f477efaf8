//! Character classification and string building, as std provides them.
use vstd::prelude::*;

verus! {

/// The Unicode White_Space property of a character.
pub uninterp spec fn unicode_white_space(c: char) -> bool;

/// The Unicode Alphabetic property of a character.
pub uninterp spec fn unicode_alphabetic(c: char) -> bool;

/// Whether a character is in one of the Unicode numeric general categories.
pub uninterp spec fn unicode_numeric(c: char) -> bool;

/// Whitespace, as `char::is_whitespace` reports it.
pub open spec fn white_space(c: char) -> bool {
    if ascii(c) {
        c == ' ' || ('\t' <= c && c <= '\r')
    } else {
        unicode_white_space(c)
    }
}

/// Alphabetic, as `char::is_alphabetic` reports it.
pub open spec fn alphabetic(c: char) -> bool {
    if ascii(c) {
        ascii_letter(c)
    } else {
        unicode_alphabetic(c)
    }
}

/// Numeric, as `char::is_numeric` reports it.
pub open spec fn numeric(c: char) -> bool {
    if ascii(c) {
        ascii_digit(c)
    } else {
        unicode_numeric(c)
    }
}

/// An ASCII character, by code point.
pub open spec fn ascii(c: char) -> bool {
    (c as u32) < 128
}

/// The ASCII letters `a..z` and `A..Z`.
pub open spec fn ascii_letter(c: char) -> bool {
    ('a' <= c && c <= 'z') || ('A' <= c && c <= 'Z')
}

/// The ASCII digits `0..9`.
pub open spec fn ascii_digit(c: char) -> bool {
    '0' <= c && c <= '9'
}

/// Relies on `char::is_whitespace`: the White_Space property, which among ASCII
/// characters holds exactly of the space and of `\t`, `\n`, `\x0B`, `\x0C`, `\r`.
#[verifier::external_body]
pub(crate) fn is_whitespace(c: char) -> (r: bool)
    ensures
        ascii(c) ==> (r <==> (c == ' ' || ('\t' <= c && c <= '\r'))),
        !ascii(c) ==> r == unicode_white_space(c),
{
    c.is_whitespace()
}

/// Relies on `char::is_alphabetic`: the Alphabetic property, which among ASCII
/// characters holds exactly of the letters.
#[verifier::external_body]
pub(crate) fn is_alphabetic(c: char) -> (r: bool)
    ensures
        ascii(c) ==> (r <==> ascii_letter(c)),
        !ascii(c) ==> r == unicode_alphabetic(c),
{
    c.is_alphabetic()
}

/// Relies on `char::is_numeric`: the numeric general categories, which among
/// ASCII characters hold exactly of the digits.
#[verifier::external_body]
pub(crate) fn is_numeric(c: char) -> (r: bool)
    ensures
        ascii(c) ==> (r <==> ascii_digit(c)),
        !ascii(c) ==> r == unicode_numeric(c),
{
    c.is_numeric()
}

/// Relies on `char::is_alphanumeric`: documented as `is_alphabetic` or `is_numeric`.
#[verifier::external_body]
pub(crate) fn is_alphanumeric(c: char) -> (r: bool)
    ensures
        ascii(c) ==> (r <==> (ascii_letter(c) || ascii_digit(c))),
        !ascii(c) ==> r == (unicode_alphabetic(c) || unicode_numeric(c)),
{
    c.is_alphanumeric()
}

/// Relies on `String::push`: appends one character at the end.
#[verifier::external_body]
pub(crate) fn push_char(s: &mut String, c: char)
    ensures
        final(s)@ == old(s)@.push(c),
{
    s.push(c)
}

} // verus!
