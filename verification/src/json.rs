//! JSON string literals, written by `serde_json`.
use vstd::prelude::*;
use crate::decimal::digit_char;
use crate::text::{spec_trim_matches, trim_char, lemma_trim_enclosed};

verus! {

#[verifier::external_type_specification]
#[verifier::external_body]
pub struct ExJsonError(serde_json::Error);

/// A lower-case hexadecimal digit (for `0 <= d < 16`).
pub open spec fn hex_lower(d: int) -> char {
    if d < 10 {
        digit_char(d)
    } else if d == 10 { 'a' }
    else if d == 11 { 'b' }
    else if d == 12 { 'c' }
    else if d == 13 { 'd' }
    else if d == 14 { 'e' }
    else { 'f' }
}

/// How a JSON string writes `c`: a quote, a backslash and the control
/// characters below U+0020 are escaped (the short forms `\b \f \n \r \t`
/// where JSON has one, `\u00xx` in lower-case hex otherwise); every other
/// character is written as it is.
pub open spec fn json_escape_char(c: char) -> Seq<char> {
    if c == '"' {
        seq!['\\', '"']
    } else if c == '\\' {
        seq!['\\', '\\']
    } else if c == '\u{8}' {
        seq!['\\', 'b']
    } else if c == '\u{c}' {
        seq!['\\', 'f']
    } else if c == '\n' {
        seq!['\\', 'n']
    } else if c == '\r' {
        seq!['\\', 'r']
    } else if c == '\t' {
        seq!['\\', 't']
    } else if (c as u32) < 0x20 {
        seq!['\\', 'u', '0', '0', hex_lower((c as u32) as int / 16), hex_lower((c as u32) as int % 16)]
    } else {
        seq![c]
    }
}

/// The characters of `s`, each as a JSON string writes it.
pub open spec fn json_escape(s: Seq<char>) -> Seq<char>
    decreases s.len(),
{
    if s.len() == 0 {
        Seq::<char>::empty()
    } else {
        json_escape(s.drop_last()) + json_escape_char(s.last())
    }
}

/// The JSON string literal of `s`: its escaped characters between quotes.
pub open spec fn json_string_literal(s: Seq<char>) -> Seq<char> {
    seq!['"'] + json_escape(s) + seq!['"']
}

/// No character of `s` is one that JSON escapes: a quote, a backslash or a
/// control character below U+0020.
pub open spec fn json_plain(s: Seq<char>) -> bool {
    forall|i: int|
        0 <= i < s.len() ==> #[trigger] s[i] != '"' && s[i] != '\\' && (s[i] as u32) >= 0x20
}

/// A string with nothing to escape is written as it is.
pub proof fn lemma_json_plain(s: Seq<char>)
    requires
        json_plain(s),
    ensures
        json_escape(s) == s,
    decreases s.len(),
{
    if s.len() > 0 {
        let t = s.drop_last();
        assert(json_plain(t)) by {
            assert forall|i: int| 0 <= i < t.len() implies #[trigger] t[i] != '"' && t[i] != '\\'
                && (t[i] as u32) >= 0x20 by {
                assert(t[i] == s[i]);
            }
        }
        lemma_json_plain(t);
        let c = s[s.len() - 1];
        assert(c != '"' && c != '\\' && (c as u32) >= 0x20);
        assert(json_escape_char(c) == seq![c]);
        assert(s =~= t + seq![c]);
    }
}

/// `serde_json::to_string` on a `str`. A `str` is written with
/// `serialize_str` into a `Vec<u8>`, which takes every byte, so the call
/// succeeds; what it writes is the literal of `format_escaped_str` and the
/// `ESCAPE` table of `serde_json`'s serializer, stated as
/// `json_string_literal`.
#[verifier::external_body]
pub(crate) fn json_string(s: &str) -> (r: Result<String, serde_json::Error>)
    ensures
        r is Ok,
        r matches Ok(v) ==> v@ == json_string_literal(s@),
{
    serde_json::to_string(s)
}

/// The text of a payment request as the invoice message shows it: its JSON
/// literal with the quotes trimmed off both ends.
pub open spec fn spec_request_text(request: Seq<char>) -> Seq<char> {
    spec_trim_matches(json_string_literal(request), '"')
}

/// The text of a payment request as the invoice message shows it. A request
/// with nothing to escape comes back unchanged.
pub fn request_text(request: &str) -> (r: String)
    ensures
        r@ == spec_request_text(request@),
        json_plain(request@) ==> r@ == request@,
{
    let literal = match json_string(request) {
        Ok(v) => v,
        Err(_) => return String::new(),  // never taken: `json_string` always succeeds
    };
    let text = trim_char(literal.as_str(), '"');
    proof {
        if json_plain(request@) {
            assert forall|i: int| 0 <= i < request@.len() implies request@[i] != '"' by {
                assert(request@[i] != '"');
            }
            lemma_json_plain(request@);
            lemma_trim_enclosed(request@, '"');
        }
    }
    text
}

} // verus!
