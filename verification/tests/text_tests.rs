use warden_worker::text::{
    concat2, format_i64, format_u64, parse_i32, parse_i64, split_on_slash, trim, trim_slash,
};

#[test]
fn trim_removes_unicode_whitespace_at_both_ends() {
    assert_eq!(trim("  a b \t\n"), "a b");
    assert_eq!(trim("\u{3000}x\u{a0}"), "x");
    assert_eq!(trim("   "), "");
    assert_eq!(trim(""), "");
}

#[test]
fn trim_slash_keeps_inner_slashes() {
    assert_eq!(trim_slash("/api/sends/"), "api/sends");
    assert_eq!(trim_slash("///"), "");
    assert_eq!(trim_slash("a//b"), "a//b");
}

#[test]
fn split_matches_str_split() {
    for s in ["", "a", "a/b", "a//b", "/", "api/ciphers/1/attachment/2/download", "é/ü"] {
        let expected: Vec<String> = s.split('/').map(|x| x.to_string()).collect();
        assert_eq!(split_on_slash(s), expected);
    }
}

#[test]
fn format_matches_display() {
    for n in [0u64, 7, 10, 99, 100, 12345, u64::MAX] {
        assert_eq!(format_u64(n), n.to_string());
    }
    for n in [0i64, -1, 42, -42, i64::MAX, i64::MIN] {
        assert_eq!(format_i64(n), n.to_string());
    }
}

#[test]
fn parse_i64_matches_std() {
    for s in [
        "0", "+5", "-5", "-0", "007", "", "+", "-", "1a", " 1", "1 ",
        "9223372036854775807", "9223372036854775808", "-9223372036854775808",
        "-9223372036854775809", "99999999999999999999999", "١",
    ] {
        assert_eq!(parse_i64(s), s.parse::<i64>().ok(), "input {s:?}");
    }
}

#[test]
fn parse_i32_matches_std() {
    for s in ["2147483647", "2147483648", "-2147483648", "-2147483649", "25", "x"] {
        assert_eq!(parse_i32(s), s.parse::<i32>().ok(), "input {s:?}");
    }
}

#[test]
fn concat_joins() {
    assert_eq!(concat2("u:", "abc"), "u:abc");
}
