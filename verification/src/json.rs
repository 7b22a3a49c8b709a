//! Writing JSON text: quoted strings as `serde_json` writes them, and
//! integers in decimal; and telling JSON text apart.

use vstd::prelude::*;
use vstd::string::*;

verus! {

/// The lower-case hexadecimal (and decimal) digit for `n` in `0..16`.
pub open spec fn hex_digit(n: int) -> char {
    if n < 10 {
        ('0' as int + n) as char
    } else {
        ('a' as int + (n - 10)) as char
    }
}

/// The JSON text for one character inside a string: quote and backslash
/// are escaped with a backslash, backspace, tab, line feed, form feed and
/// carriage return by their short escapes, other control characters below
/// U+0020 as `\u00XX` in lower-case hex, and every other character stands
/// for itself.
pub open spec fn escape_char(c: char) -> Seq<char> {
    if c == '"' {
        seq!['\\', '"']
    } else if c == '\\' {
        seq!['\\', '\\']
    } else if c == '\u{8}' {
        seq!['\\', 'b']
    } else if c == '\t' {
        seq!['\\', 't']
    } else if c == '\n' {
        seq!['\\', 'n']
    } else if c == '\u{c}' {
        seq!['\\', 'f']
    } else if c == '\r' {
        seq!['\\', 'r']
    } else if (c as int) < 0x20 {
        seq!['\\', 'u', '0', '0', hex_digit(c as int / 16), hex_digit(c as int % 16)]
    } else {
        seq![c]
    }
}

/// The escaped contents of a JSON string holding `s`.
pub open spec fn escape_text(s: Seq<char>) -> Seq<char>
    decreases s.len(),
{
    if s.len() == 0 {
        Seq::empty()
    } else {
        escape_text(s.drop_last()) + escape_char(s.last())
    }
}

/// The JSON string literal for `s`.
pub open spec fn json_string(s: Seq<char>) -> Seq<char> {
    seq!['"'] + escape_text(s) + seq!['"']
}

/// The decimal digits of a natural number, with no leading zeros.
pub open spec fn nat_text(n: nat) -> Seq<char>
    decreases n,
{
    if n < 10 {
        seq![hex_digit(n as int)]
    } else {
        nat_text(n / 10) + seq![hex_digit((n % 10) as int)]
    }
}

/// The decimal text of an integer, with a leading `-` when it is negative.
pub open spec fn int_text(n: int) -> Seq<char> {
    if n < 0 {
        seq!['-'] + nat_text((-n) as nat)
    } else {
        nat_text(n as nat)
    }
}

/// The one-character text of the hex digit `d`.
fn digit_str(d: u32) -> (r: &'static str)
    requires
        d < 16,
    ensures
        r@ == seq![hex_digit(d as int)],
{
    proof {
        reveal_strlit("0");
        reveal_strlit("1");
        reveal_strlit("2");
        reveal_strlit("3");
        reveal_strlit("4");
        reveal_strlit("5");
        reveal_strlit("6");
        reveal_strlit("7");
        reveal_strlit("8");
        reveal_strlit("9");
        reveal_strlit("a");
        reveal_strlit("b");
        reveal_strlit("c");
        reveal_strlit("d");
        reveal_strlit("e");
        reveal_strlit("f");
    }
    let r = if d == 0 {
        "0"
    } else if d == 1 {
        "1"
    } else if d == 2 {
        "2"
    } else if d == 3 {
        "3"
    } else if d == 4 {
        "4"
    } else if d == 5 {
        "5"
    } else if d == 6 {
        "6"
    } else if d == 7 {
        "7"
    } else if d == 8 {
        "8"
    } else if d == 9 {
        "9"
    } else if d == 10 {
        "a"
    } else if d == 11 {
        "b"
    } else if d == 12 {
        "c"
    } else if d == 13 {
        "d"
    } else if d == 14 {
        "e"
    } else {
        "f"
    };
    assert(r@ =~= seq![hex_digit(d as int)]);
    r
}

/// The error type of `serde_json`.
#[verifier::external_type_specification]
#[verifier::external_body]
pub struct ExSerdeJsonError(serde_json::Error);

/// The JSON string literal for `s`, as `serde_json` writes it.
///
/// Calls `serde_json::to_string` on the string slice. The contract claims
/// that this succeeds (writing a string into memory cannot fail) and gives
/// `json_string(s)`: serde_json's compact formatter writes a quote, each
/// character as `escape_char` renders it (its escape table sends quote,
/// backslash and the control characters below U+0020 exactly to those
/// escapes, with lower-case hex digits, and leaves every other character
/// as it is), and a quote.
#[verifier::external_body]
fn quoted_json_string(s: &str) -> (r: Result<String, serde_json::Error>)
    ensures
        match r {
            Ok(q) => q@ == json_string(s@),
            Err(_) => false,
        },
{
    serde_json::to_string(s)
}

/// Appends the JSON string literal for `s` to `out`.
pub fn write_json_string(out: &mut String, s: &str)
    ensures
        final(out)@ == old(out)@ + json_string(s@),
{
    match quoted_json_string(s) {
        Ok(q) => out.append(q.as_str()),
        Err(_) => {},
    }
}

/// Appends the decimal digits of `n` to `out`.
pub fn write_u64(out: &mut String, n: u64)
    ensures
        final(out)@ == old(out)@ + nat_text(n as nat),
    decreases n,
{
    if n >= 10 {
        write_u64(out, n / 10);
    }
    out.append(digit_str((n % 10) as u32));
    assert(final(out)@ =~= old(out)@ + nat_text(n as nat));
}

/// Appends the decimal text of `n` to `out`.
pub fn write_i64(out: &mut String, n: i64)
    ensures
        final(out)@ == old(out)@ + int_text(n as int),
{
    if n < 0 {
        proof { reveal_strlit("-"); }
        out.append("-");
        let m: u64 = if n == i64::MIN {
            0x8000_0000_0000_0000
        } else {
            (-n) as u64
        };
        write_u64(out, m);
        assert(final(out)@ =~= old(out)@ + int_text(n as int));
    } else {
        write_u64(out, n as u64);
    }
}

/// Whether `text` is one JSON value with nothing but whitespace around it,
/// as `serde_json` parses it.
pub uninterp spec fn json_value(text: Seq<char>) -> bool;

/// Whether `text` is JSON text.
///
/// Calls `serde_json::from_str` into a borrowed
/// `serde_json::value::RawValue`, the check that `RawValue::from_string`
/// makes of its text: it succeeds exactly when `text` is one JSON value with
/// nothing but whitespace around it. The contract claims that the answer is
/// the one named by `json_value`, which depends on the text alone.
#[verifier::external_body]
pub(crate) fn is_json_value(text: &str) -> (r: bool)
    ensures
        r == json_value(text@),
{
    serde_json::from_str::<&serde_json::value::RawValue>(text).is_ok()
}

} // verus!
