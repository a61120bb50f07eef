use vstd::prelude::*;

use crate::error::{CliError, CliResult};
use crate::text::{decimal, decimal_i64};

verus! {

/// The error type of `serde_json`.
#[verifier::external_type_specification]
#[verifier::external_body]
pub struct ExSerdeJsonError(serde_json::Error);

/// The lowercase hexadecimal digit of `d`, below 16.
pub open spec fn hex_digit(d: nat) -> char {
    if d < 10 {
        ((48 + d) as u8) as char
    } else {
        ((87 + d) as u8) as char
    }
}

/// How JSON writes one character inside a string: `"` and `\` behind a
/// backslash; backspace, tab, line feed, form feed and carriage return as
/// `\b`, `\t`, `\n`, `\f`, `\r`; every other character below U+0020 as
/// `\u00` and two lowercase hexadecimal digits; any other character as
/// itself.
pub open spec fn json_escape_char(c: char) -> Seq<char> {
    if c == '"' {
        seq!['\\', '"']
    } else if c == '\\' {
        seq!['\\', '\\']
    } else if c == '\u{8}' {
        seq!['\\', 'b']
    } else if c == '\t' {
        seq!['\\', 't']
    } else if c == '\n' {
        seq!['\\', 'n']
    } else if c == '\u{c}' {
        seq!['\\', 'f']
    } else if c == '\r' {
        seq!['\\', 'r']
    } else if (c as u32) < 0x20u32 {
        seq!['\\', 'u', '0', '0', hex_digit((c as u32 / 16) as nat), hex_digit((c as u32 % 16) as nat)]
    } else {
        seq![c]
    }
}

/// The characters of a text as JSON writes them inside a string.
pub open spec fn json_escape(s: Seq<char>) -> Seq<char>
    decreases s.len(),
{
    if s.len() == 0 {
        Seq::empty()
    } else {
        json_escape(s.drop_last()) + json_escape_char(s.last())
    }
}

/// The JSON string literal of a text: its escaped characters between
/// double quotes.
pub open spec fn json_quoted(s: Seq<char>) -> Seq<char> {
    seq!['"'] + json_escape(s) + seq!['"']
}

/// A text that JSON carries between its quotes unchanged: it holds no `"`,
/// no `\` and no control character below U+0020.
pub open spec fn json_plain(s: Seq<char>) -> bool {
    forall|i: int|
        0 <= i < s.len() ==> s[i] != '"' && s[i] != '\\' && (s[i] as u32) >= 0x20u32
}

/// A text with nothing to escape is written unchanged.
pub proof fn lemma_plain_text_is_unescaped(s: Seq<char>)
    requires
        json_plain(s),
    ensures
        json_escape(s) == s,
    decreases s.len(),
{
    if s.len() > 0 {
        assert(json_plain(s.drop_last()));
        lemma_plain_text_is_unescaped(s.drop_last());
        assert(s.last() == s[s.len() - 1]);
        assert(s.drop_last().push(s.last()) =~= s);
    }
}

/// Quotes a string as a JSON string literal with `serde_json::to_string`.
///
/// What is claimed of `serde_json::to_string` on a `str`: it is never an
/// error, since the serializer writes into a `Vec<u8>`, which never fails;
/// and the result is the text between double quotes, with the characters
/// escaped as the serializer's escape table and `write_char_escape` do it
/// (`json_escape_char`).
#[verifier::external_body]
fn json_quote(s: &str) -> (r: Result<String, serde_json::Error>)
    ensures
        r is Ok,
        r matches Ok(q) ==> q@ == json_quoted(s@),
{
    serde_json::to_string(s)
}

/// The compact JSON error envelope `{"error":{"code":..,"message":..}}`.
pub open spec fn compact_envelope(code: int, quoted_message: Seq<char>) -> Seq<char> {
    "{\"error\":{\"code\":"@ + decimal(code) + ",\"message\":"@ + quoted_message + "}}"@
}

/// The pretty JSON error envelope, indented by two spaces per level.
pub open spec fn pretty_envelope(code: int, quoted_message: Seq<char>) -> Seq<char> {
    "{\n  \"error\": {\n    \"code\": "@ + decimal(code) + ",\n    \"message\": "@
        + quoted_message + "\n  }\n}"@
}

/// The JSON error envelope, compact or pretty.
pub open spec fn envelope(code: int, quoted_message: Seq<char>, pretty: bool) -> Seq<char> {
    if pretty {
        pretty_envelope(code, quoted_message)
    } else {
        compact_envelope(code, quoted_message)
    }
}

/// The text that reports an error, given its code and its message already
/// quoted as a JSON string literal.
pub fn error_envelope_json(code: i32, quoted_message: &str, pretty: bool) -> (r: String)
    ensures
        r@ == envelope(code as int, quoted_message@, pretty),
{
    let code_text = decimal_i64(code as i64);
    if pretty {
        let mut out = String::from_str("{\n  \"error\": {\n    \"code\": ");
        out.append(code_text.as_str());
        out.append(",\n    \"message\": ");
        out.append(quoted_message);
        out.append("\n  }\n}");
        out
    } else {
        let mut out = String::from_str("{\"error\":{\"code\":");
        out.append(code_text.as_str());
        out.append(",\"message\":");
        out.append(quoted_message);
        out.append("}}");
        out
    }
}

/// The message of the error that a failed serialization gives.
pub open spec fn serialize_failure_message() -> Seq<char> {
    "Failed to serialize output"@
}

/// Renders an error as its JSON envelope, compact or pretty.
pub fn render_error(err: &CliError, pretty: bool) -> (r: CliResult<String>)
    ensures
        r matches Ok(s) ==> s@ == envelope(
            err.code as int,
            json_quoted(err.message@),
            pretty,
        ),
        r matches Err(e) ==> e.code == crate::error::RUNTIME_CODE && e.message@
            == serialize_failure_message(),
        r is Ok,
        json_plain(err.message@) ==> (r matches Ok(s) ==> s@ == envelope(
            err.code as int,
            seq!['"'] + err.message@ + seq!['"'],
            pretty,
        )),
{
    proof {
        if json_plain(err.message@) {
            lemma_plain_text_is_unescaped(err.message@);
        }
    }
    match json_quote(err.message.as_str()) {
        Ok(quoted) => Ok(error_envelope_json(err.code, quoted.as_str(), pretty)),
        Err(_) => Err(CliError::runtime("Failed to serialize output")),
    }
}

} // verus!
