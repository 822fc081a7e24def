//! JSON string literals, for the values that scripts injected into the views
//! carry: the text between quotes, escaped the way `serde_json` writes it.
use vstd::prelude::*;

verus! {

/// The hexadecimal digit of `v` (below 16), in lower case.
pub open spec fn hex_digit(v: nat) -> char {
    if v < 10 {
        (('0' as nat) + v) as char
    } else {
        (('a' as nat) + v - 10) as char
    }
}

/// How one character is written inside a JSON string: the quote and the
/// backslash escaped, the five control characters that have a short escape
/// with it, every other control character below U+0020 as `\u00XX`, and
/// anything else as itself.
pub open spec fn json_escaped(c: char) -> Seq<char> {
    if c == '"' {
        seq!['\\', '"']
    } else if c == '\\' {
        seq!['\\', '\\']
    } else if c == '\u{8}' {
        seq!['\\', 'b']
    } else if c == '\t' {
        seq!['\\', 't']
    } else if c == '\n' {
        seq!['\\', 'n']
    } else if c == '\u{c}' {
        seq!['\\', 'f']
    } else if c == '\r' {
        seq!['\\', 'r']
    } else if (c as nat) < 0x20 {
        seq!['\\', 'u', '0', '0', hex_digit((c as nat) / 16), hex_digit((c as nat) % 16)]
    } else {
        seq![c]
    }
}

/// The characters of `s`, each escaped.
pub open spec fn json_body(s: Seq<char>) -> Seq<char>
    decreases s.len(),
{
    if s.len() == 0 {
        Seq::empty()
    } else {
        json_body(s.drop_last()) + json_escaped(s.last())
    }
}

/// `s` as a JSON string literal, quotes included.
pub open spec fn json_quoted(s: Seq<char>) -> Seq<char> {
    seq!['"'] + json_body(s) + seq!['"']
}

/// Calls `serde_json::to_string` on a string slice. The crate writes the
/// text between double quotes, escaping with its `ESCAPE` table exactly what
/// `json_escaped` lists (lower-case hex digits for `\u00XX`). Serialising a
/// `str` into memory cannot fail: the writer is a `Vec<u8>`, and `str`'s
/// `Serialize` never reports an error.
#[verifier::external_body]
pub(crate) fn json_string(s: &str) -> (r: Option<String>)
    ensures
        r.deep_view() == Some(json_quoted(s@)),
{
    serde_json::to_string(s).ok()
}

/// `s` as a JSON string literal; `fallback` stands in were the encoder ever
/// to fail, which it does not do for a string.
pub fn quoted_or(s: &str, fallback: &str) -> (r: String)
    ensures
        r@ == json_quoted(s@),
{
    match json_string(s) {
        Some(q) => q,
        None => String::from_str(fallback),
    }
}

} // verus!
