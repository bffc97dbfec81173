//! The HTTP grammar fragments the pipeline validates against: the token
//! character set for header field names, the header-value character set,
//! and the whitespace set used to strip leading blanks off raw values.

use vstd::prelude::*;

verus! {

/// A character of the HTTP token grammar: the characters allowed in a
/// header field name (visible ASCII without separators).
pub open spec fn is_token_char(c: char) -> bool {
    ||| ('a' <= c && c <= 'z')
    ||| ('A' <= c && c <= 'Z')
    ||| ('0' <= c && c <= '9')
    ||| c == '!' || c == '#' || c == '$' || c == '%' || c == '&' || c == '\'' || c == '*'
    ||| c == '+' || c == '-' || c == '.' || c == '^' || c == '_' || c == '`' || c == '|'
    ||| c == '~'
}

/// A character allowed in a header field value: horizontal tab or any
/// character other than the C0 controls and delete. Characters above
/// U+007F are allowed (their encoded bytes are in the obs-text range).
pub open spec fn is_value_char(c: char) -> bool {
    c == '\t' || (32 <= c as u32 && c as u32 != 127)
}

/// A whitespace character, as leading-whitespace stripping understands
/// it: the Unicode white space set.
pub open spec fn is_ws_char(c: char) -> bool {
    ||| c == ' ' || c == '\t' || c == '\n' || c == '\r' || c == '\u{b}' || c == '\u{c}'
    ||| c == '\u{85}' || c == '\u{a0}' || c == '\u{1680}'
    ||| ('\u{2000}' <= c && c <= '\u{200a}')
    ||| c == '\u{2028}' || c == '\u{2029}' || c == '\u{202f}' || c == '\u{205f}'
    ||| c == '\u{3000}'
}

/// A valid header field name: a non-empty run of token characters.
pub open spec fn valid_header_name(s: Seq<char>) -> bool {
    s.len() > 0 && (forall|i: int| 0 <= i < s.len() ==> is_token_char(#[trigger] s[i]))
}

/// A valid header field value: every character is in the value set.
pub open spec fn valid_header_value(s: Seq<char>) -> bool {
    forall|i: int| 0 <= i < s.len() ==> is_value_char(#[trigger] s[i])
}

/// An uppercase ASCII letter mapped to its lowercase form; any other
/// character unchanged.
pub open spec fn lower_char(c: char) -> char {
    if 'A' <= c && c <= 'Z' {
        ((c as u32 + 32) as char)
    } else {
        c
    }
}

/// A character sequence with every uppercase ASCII letter lowered.
pub open spec fn lower_seq(s: Seq<char>) -> Seq<char> {
    s.map_values(|c: char| lower_char(c))
}

/// A character sequence with its leading whitespace removed.
pub open spec fn trim_start_seq(s: Seq<char>) -> Seq<char>
    decreases s.len(),
{
    if s.len() > 0 && is_ws_char(s[0]) {
        trim_start_seq(s.drop_first())
    } else {
        s
    }
}

/// Decides membership in the HTTP token character set.
pub fn check_token_char(c: char) -> (r: bool)
    ensures
        r == is_token_char(c),
{
    ('a' <= c && c <= 'z') || ('A' <= c && c <= 'Z') || ('0' <= c && c <= '9') || c == '!'
        || c == '#' || c == '$' || c == '%' || c == '&' || c == '\'' || c == '*' || c == '+'
        || c == '-' || c == '.' || c == '^' || c == '_' || c == '`' || c == '|' || c == '~'
}

/// Decides membership in the header-value character set.
pub fn check_value_char(c: char) -> (r: bool)
    ensures
        r == is_value_char(c),
{
    c == '\t' || (c as u32 >= 32 && c as u32 != 127)
}

/// Decides membership in the whitespace set.
pub fn check_ws_char(c: char) -> (r: bool)
    ensures
        r == is_ws_char(c),
{
    c == ' ' || c == '\t' || c == '\n' || c == '\r' || c == '\u{b}' || c == '\u{c}'
        || c == '\u{85}' || c == '\u{a0}' || c == '\u{1680}' || ('\u{2000}' <= c
        && c <= '\u{200a}') || c == '\u{2028}' || c == '\u{2029}' || c == '\u{202f}'
        || c == '\u{205f}' || c == '\u{3000}'
}

/// Maps an uppercase ASCII letter to lowercase, other characters to
/// themselves.
pub fn to_lower_char(c: char) -> (r: char)
    ensures
        r == lower_char(c),
{
    if 'A' <= c && c <= 'Z' {
        let b: u8 = c as u8;
        ((b + 32) as char)
    } else {
        c
    }
}

} // verus!
