//! The JSON text forms the service emits: the escaping of a string placed in a
//! JSON document, and the error envelope `{"error": "<message>"}`.

use vstd::prelude::*;

verus! {

/// The lowercase hexadecimal digit for a value below 16.
pub open spec fn hex_char(n: u32) -> char {
    if n == 0 {
        '0'
    } else if n == 1 {
        '1'
    } else if n == 2 {
        '2'
    } else if n == 3 {
        '3'
    } else if n == 4 {
        '4'
    } else if n == 5 {
        '5'
    } else if n == 6 {
        '6'
    } else if n == 7 {
        '7'
    } else if n == 8 {
        '8'
    } else if n == 9 {
        '9'
    } else if n == 10 {
        'a'
    } else if n == 11 {
        'b'
    } else if n == 12 {
        'c'
    } else if n == 13 {
        'd'
    } else if n == 14 {
        'e'
    } else {
        'f'
    }
}

/// How one character appears inside a JSON string: quote and backslash take a
/// backslash escape, the five named control characters take their short forms,
/// every other control character below 0x20 becomes `\u00XX` with lowercase
/// hex digits, and all remaining characters stand unchanged.
pub open spec fn json_escape_char(c: char) -> Seq<char> {
    if c == '"' {
        seq!['\\', '"']
    } else if c == '\\' {
        seq!['\\', '\\']
    } else if c == '\u{8}' {
        seq!['\\', 'b']
    } else if c == '\t' {
        seq!['\\', 't']
    } else if c == '\n' {
        seq!['\\', 'n']
    } else if c == '\u{c}' {
        seq!['\\', 'f']
    } else if c == '\r' {
        seq!['\\', 'r']
    } else if (c as u32) < 32 {
        seq!['\\', 'u', '0', '0', hex_char((c as u32) / 16), hex_char((c as u32) % 16)]
    } else {
        seq![c]
    }
}

/// A string as it appears inside a JSON document: each character escaped.
pub open spec fn json_escaped(s: Seq<char>) -> Seq<char>
    decreases s.len(),
{
    if s.len() == 0 {
        Seq::empty()
    } else {
        json_escape_char(s[0]) + json_escaped(s.skip(1))
    }
}

/// The uniform error body: a one-entry JSON object `{"error": "<message>"}`,
/// with the message escaped.
pub open spec fn error_envelope(msg: Seq<char>) -> Seq<char> {
    "{\"error\":\""@ + json_escaped(msg) + "\"}"@
}

/// Relies on serde_json::to_string over the object `{"error": <msg>}`: it
/// emits the two keys-and-braces frame compactly and escapes the message with
/// serde_json's escape table (quote, backslash, control characters).
/// Serialization of a string-keyed object of one string cannot fail.
#[verifier::external_body]
pub fn error_body_json(msg: &str) -> (r: String)
    ensures
        r@ == error_envelope(msg@),
{
    let mut entries = serde_json::Map::new();
    entries.insert(String::from("error"), serde_json::Value::String(msg.to_string()));
    serde_json::to_string(&serde_json::Value::Object(entries)).unwrap_or_default()
}

/// A character that JSON escaping leaves unchanged.
pub open spec fn plain_json_char(c: char) -> bool {
    c != '"' && c != '\\' && (c as u32) >= 32
}

/// Escaping a string of plain characters leaves it unchanged.
pub proof fn lemma_json_escaped_plain(s: Seq<char>)
    requires
        forall|i: int| 0 <= i < s.len() ==> plain_json_char(s[i]),
    ensures
        json_escaped(s) == s,
    decreases s.len(),
{
    if s.len() == 0 {
        assert(json_escaped(s) =~= s);
    } else {
        lemma_json_escaped_plain(s.skip(1));
        assert(json_escape_char(s[0]) =~= seq![s[0]]);
        assert(seq![s[0]] + s.skip(1) =~= s);
    }
}

} // verus!
