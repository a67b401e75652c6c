//! JSON assembly for the execution result payload, and the string-literal
//! quoting used both there and when a source text is embedded into a
//! generated script.

use vstd::prelude::*;

verus! {

/// The lowercase hexadecimal digit of a value below sixteen.
pub open spec fn hex_digit_char(n: int) -> char {
    if n == 0 {
        '0'
    } else if n == 1 {
        '1'
    } else if n == 2 {
        '2'
    } else if n == 3 {
        '3'
    } else if n == 4 {
        '4'
    } else if n == 5 {
        '5'
    } else if n == 6 {
        '6'
    } else if n == 7 {
        '7'
    } else if n == 8 {
        '8'
    } else if n == 9 {
        '9'
    } else if n == 10 {
        'a'
    } else if n == 11 {
        'b'
    } else if n == 12 {
        'c'
    } else if n == 13 {
        'd'
    } else if n == 14 {
        'e'
    } else {
        'f'
    }
}

/// How one character is written inside a JSON string literal: the quote
/// and the backslash get a backslash, the named control characters get
/// their short escapes, any other control character below U+0020 becomes a
/// lowercase `\u00XX` escape, and everything else is copied through.
pub open spec fn escape_char_spec(c: char) -> Seq<char> {
    if c == '"' {
        seq!['\\', '"']
    } else if c == '\\' {
        seq!['\\', '\\']
    } else if c == '\u{8}' {
        seq!['\\', 'b']
    } else if c == '\t' {
        seq!['\\', 't']
    } else if c == '\n' {
        seq!['\\', 'n']
    } else if c == '\u{c}' {
        seq!['\\', 'f']
    } else if c == '\r' {
        seq!['\\', 'r']
    } else if (c as u32) < 0x20 {
        seq!['\\', 'u', '0', '0', hex_digit_char(c as u32 as int / 16), hex_digit_char(c as u32 as int % 16)]
    } else {
        seq![c]
    }
}

/// The body of a JSON string literal holding `s`.
pub open spec fn json_escaped(s: Seq<char>) -> Seq<char>
    decreases s.len()
{
    if s.len() == 0 {
        Seq::empty()
    } else {
        escape_char_spec(s[0]) + json_escaped(s.drop_first())
    }
}

/// A JSON string literal holding `s`: the escaped body between double
/// quotes.
pub open spec fn json_string_spec(s: Seq<char>) -> Seq<char> {
    seq!['"'] + json_escaped(s) + seq!['"']
}

/// Relies on serde_json::to_string on a string slice: it emits a
/// double-quoted literal in which `"`, `\` and the control characters
/// below U+0020 are escaped (short escapes for backspace, tab, line feed,
/// form feed and carriage return, lowercase `\u00XX` for the rest) and
/// every other character is copied through unchanged. Serializing a string
/// slice cannot fail.
#[verifier::external_body]
pub(crate) fn json_quote(s: &str) -> (r: String)
    ensures
        r@ == json_string_spec(s@),
{
    serde_json::to_string(s).unwrap()
}

/// The decimal digit character of a value below ten.
pub open spec fn dec_digit_char(n: int) -> char {
    if n == 0 {
        '0'
    } else if n == 1 {
        '1'
    } else if n == 2 {
        '2'
    } else if n == 3 {
        '3'
    } else if n == 4 {
        '4'
    } else if n == 5 {
        '5'
    } else if n == 6 {
        '6'
    } else if n == 7 {
        '7'
    } else if n == 8 {
        '8'
    } else {
        '9'
    }
}

/// The decimal digits of a non-negative value, most significant first,
/// with no leading zero except for the value zero itself.
pub open spec fn dec_spec(n: int) -> Seq<char>
    decreases n when n >= 0
{
    if n < 10 {
        seq![dec_digit_char(n)]
    } else {
        dec_spec(n / 10).push(dec_digit_char(n % 10))
    }
}

/// The decimal digit of a value below ten, as a string.
fn dec_digit_str(d: u64) -> (r: &'static str)
    requires
        d < 10,
    ensures
        r@ == seq![dec_digit_char(d as int)],
{
    proof {
        reveal_strlit("0");
        reveal_strlit("1");
        reveal_strlit("2");
        reveal_strlit("3");
        reveal_strlit("4");
        reveal_strlit("5");
        reveal_strlit("6");
        reveal_strlit("7");
        reveal_strlit("8");
        reveal_strlit("9");
    }
    let r = if d == 0 {
        "0"
    } else if d == 1 {
        "1"
    } else if d == 2 {
        "2"
    } else if d == 3 {
        "3"
    } else if d == 4 {
        "4"
    } else if d == 5 {
        "5"
    } else if d == 6 {
        "6"
    } else if d == 7 {
        "7"
    } else if d == 8 {
        "8"
    } else {
        "9"
    };
    proof {
        assert(r@ =~= seq![dec_digit_char(d as int)]);
    }
    r
}

/// The decimal representation of `n`.
pub fn u64_to_dec(n: u64) -> (r: String)
    ensures
        r@ == dec_spec(n as int),
    decreases n,
{
    if n < 10 {
        String::from_str(dec_digit_str(n))
    } else {
        let mut s = u64_to_dec(n / 10);
        s.append(dec_digit_str(n % 10));
        proof {
            assert(s@ =~= dec_spec(n as int));
        }
        s
    }
}

/// The word JSON uses for a boolean.
pub open spec fn bool_json_spec(b: bool) -> Seq<char> {
    if b {
        "true"@
    } else {
        "false"@
    }
}

fn bool_json_str(b: bool) -> (r: &'static str)
    ensures
        r@ == bool_json_spec(b),
{
    if b {
        "true"
    } else {
        "false"
    }
}

/// The execution result payload: a JSON object with the fields `success`,
/// `gas_used`, `output` and `error`, in that order. The `error` field is
/// `null` exactly when the joined stderr text is empty; otherwise it holds
/// that text.
pub open spec fn result_json_spec(
    success: bool,
    gas: u64,
    output: Seq<char>,
    errors: Seq<char>,
) -> Seq<char> {
    "{\"success\":"@ + bool_json_spec(success) + ",\"gas_used\":"@ + dec_spec(gas as int)
        + ",\"output\":"@ + json_string_spec(output) + ",\"error\":"@ + (if errors.len() == 0 {
        "null"@
    } else {
        json_string_spec(errors)
    }) + "}"@
}

/// Assemble the execution result payload from the harvested accounting
/// values.
pub fn result_json(success: bool, gas: u64, output: &str, errors: &str) -> (r: String)
    ensures
        r@ == result_json_spec(success, gas, output@, errors@),
{
    let mut out = String::from_str("{\"success\":");
    out.append(bool_json_str(success));
    out.append(",\"gas_used\":");
    let dec = u64_to_dec(gas);
    out.append(dec.as_str());
    out.append(",\"output\":");
    let q = json_quote(output);
    out.append(q.as_str());
    out.append(",\"error\":");
    if errors.unicode_len() == 0 {
        out.append("null");
    } else {
        let e = json_quote(errors);
        out.append(e.as_str());
    }
    out.append("}");
    proof {
        assert(out@ =~= result_json_spec(success, gas, output@, errors@));
    }
    out
}

} // verus!
