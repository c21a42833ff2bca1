//! How a string is written as a JSON string literal.
use vstd::prelude::*;
use crate::ident::hex_digit_char;

verus! {

/// The escape sequence that stands for `c` in an encoded string literal:
/// quote, backslash and control characters are escaped, the short forms
/// where JSON has them and `\u00XX` with lowercase digits otherwise.
pub open spec fn escape_char(c: char) -> Seq<char> {
    if c == '"' {
        seq!['\\', '"']
    } else if c == '\\' {
        seq!['\\', '\\']
    } else if c == '\u{8}' {
        seq!['\\', 'b']
    } else if c == '\u{c}' {
        seq!['\\', 'f']
    } else if c == '\n' {
        seq!['\\', 'n']
    } else if c == '\r' {
        seq!['\\', 'r']
    } else if c == '\t' {
        seq!['\\', 't']
    } else if (c as u32) < 0x20 {
        seq![
            '\\',
            'u',
            '0',
            '0',
            hex_digit_char((c as u32 / 16) as nat),
            hex_digit_char((c as u32 % 16) as nat),
        ]
    } else {
        seq![c]
    }
}

/// The body of the encoded string literal for `s`.
pub open spec fn escape(s: Seq<char>) -> Seq<char>
    decreases s.len(),
{
    if s.len() == 0 {
        Seq::empty()
    } else {
        escape(s.drop_last()) + escape_char(s.last())
    }
}

/// Relies on `serde_json::to_string` of a `str` (`format_escaped_str`, whose
/// `ESCAPE` table `escape_char` restates): the string literal, quotes
/// included. Writing to a `Vec` cannot fail.
#[verifier::external_body]
pub(crate) fn json_string(s: &str) -> (r: String)
    ensures
        r@ == seq!['"'] + escape(s@) + seq!['"'],
{
    serde_json::to_string(s).unwrap_or_default()
}

} // verus!
