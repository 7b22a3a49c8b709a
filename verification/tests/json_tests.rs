use rustbasic_jwt::json::{write_i64, write_json_string, write_u64};

fn quoted(s: &str) -> String {
    let mut out = String::new();
    write_json_string(&mut out, s);
    out
}

#[test]
fn json_strings_escape_quote_backslash_and_controls() {
    assert_eq!(quoted("abc"), "\"abc\"");
    assert_eq!(quoted(""), "\"\"");
    assert_eq!(quoted("a\"b"), "\"a\\\"b\"");
    assert_eq!(quoted("a\\b"), "\"a\\\\b\"");
    assert_eq!(quoted("\n\t\r\u{8}\u{c}"), "\"\\n\\t\\r\\b\\f\"");
    assert_eq!(quoted("\u{1}\u{1f}"), "\"\\u0001\\u001f\"");
    assert_eq!(quoted("é/ü\u{7f}"), "\"é/ü\u{7f}\"");
}

#[test]
fn json_strings_agree_with_serde_json() {
    let cases = ["plain", "quote\"in", "back\\slash", "ctl\u{0}\u{1b}x", "tab\tnl\n", "émoji 🎉", "</script>"];
    for c in cases {
        assert_eq!(quoted(c), serde_json::to_string(c).unwrap(), "case {:?}", c);
    }
}

#[test]
fn json_strings_append_to_what_is_there() {
    let mut out = String::from("x=");
    write_json_string(&mut out, "y");
    assert_eq!(out, "x=\"y\"");
}

#[test]
fn integers_in_decimal() {
    let mut out = String::new();
    write_i64(&mut out, -42);
    out.push(' ');
    write_i64(&mut out, 0);
    out.push(' ');
    write_i64(&mut out, i64::MIN);
    out.push(' ');
    write_i64(&mut out, i64::MAX);
    out.push(' ');
    write_u64(&mut out, u64::MAX);
    assert_eq!(
        out,
        "-42 0 -9223372036854775808 9223372036854775807 18446744073709551615"
    );
}
