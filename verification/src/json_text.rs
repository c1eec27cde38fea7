//! JSON text of strings, as `serde_json` writes a `Value::String`.
use vstd::prelude::*;

verus! {

/// Lower-case hexadecimal digit.
pub open spec fn lower_hex_digit(d: nat) -> char {
    if d < 10 {
        ((0x30 + d) as u32) as char
    } else {
        ((0x61 + d - 10) as u32) as char
    }
}

/// How one character is written inside a JSON string: quote and backslash
/// escaped, the usual short escapes for backspace, tab, line feed, form
/// feed and carriage return, `\u00xx` for the other control characters,
/// anything else as it is.
pub open spec fn json_escape(c: char) -> Seq<char> {
    if c == '"' {
        seq!['\\', '"']
    } else if c == '\\' {
        seq!['\\', '\\']
    } else if c == '\u{8}' {
        seq!['\\', 'b']
    } else if c == '\t' {
        seq!['\\', 't']
    } else if c == '\n' {
        seq!['\\', 'n']
    } else if c == '\u{c}' {
        seq!['\\', 'f']
    } else if c == '\r' {
        seq!['\\', 'r']
    } else if (c as u32) < 0x20 {
        seq![
            '\\',
            'u',
            '0',
            '0',
            lower_hex_digit(((c as u32) / 16) as nat),
            lower_hex_digit(((c as u32) % 16) as nat),
        ]
    } else {
        seq![c]
    }
}

/// The characters of `s`, each escaped.
pub open spec fn json_escaped(s: Seq<char>) -> Seq<char>
    decreases s.len(),
{
    if s.len() == 0 {
        Seq::empty()
    } else {
        json_escaped(s.drop_last()) + json_escape(s.last())
    }
}

/// The JSON text of the string `s`.
pub open spec fn json_string_text(s: Seq<char>) -> Seq<char> {
    seq!['"'] + json_escaped(s) + seq!['"']
}

/// The JSON text of the string `s`: `serde_json::Value::String(s)` written
/// out with `to_string`. The contract claims that serde_json writes the
/// string quoted, each character as `json_escape` says (its escape table
/// and `write_char_escape`).
#[verifier::external_body]
pub(crate) fn json_string(s: &str) -> (r: String)
    ensures
        r@ == json_string_text(s@),
{
    serde_json::Value::String(s.to_owned()).to_string()
}

} // verus!
