use pksmash::config::{parse_port, port_from_env};
use pksmash::json::push_json_string;
use pksmash::text::{chars_of, format_i64, hex_encode, remove_occurrences, starts_with, str_eq, string_of};

#[test]
fn parse_port_accepts_decimal_numbers() {
    assert_eq!(parse_port("8000"), Some(8000));
    assert_eq!(parse_port("0"), Some(0));
    assert_eq!(parse_port("007"), Some(7));
    assert_eq!(parse_port("+80"), Some(80));
    assert_eq!(parse_port("65535"), Some(65535));
}

#[test]
fn parse_port_refuses_other_text() {
    assert_eq!(parse_port(""), None);
    assert_eq!(parse_port("+"), None);
    assert_eq!(parse_port("-1"), None);
    assert_eq!(parse_port("65536"), None);
    assert_eq!(parse_port("99999999999"), None);
    assert_eq!(parse_port("80a"), None);
    assert_eq!(parse_port(" 80"), None);
    assert_eq!(parse_port("++8"), None);
}

#[test]
fn parse_port_agrees_with_std() {
    for s in ["1", "+1", "-0", "00000000000000000080", "65535", "65536", "١", "12 "] {
        assert_eq!(parse_port(s), s.parse::<u16>().ok(), "{s:?}");
    }
}

#[test]
fn parse_port_roundtrips_every_port() {
    for n in [0u16, 1, 9, 10, 99, 100, 8000, 8080, 65535] {
        assert_eq!(parse_port(&n.to_string()), Some(n));
    }
}

#[test]
fn port_from_env_defaults_to_8000() {
    assert_eq!(port_from_env(None), Some(8000));
    assert_eq!(port_from_env(Some("3000")), Some(3000));
    assert_eq!(port_from_env(Some("http")), None);
}

#[test]
fn chars_and_equality() {
    assert_eq!(chars_of("añb"), vec!['a', 'ñ', 'b']);
    assert!(str_eq("usernameIndex", "usernameIndex"));
    assert!(!str_eq("usernameIndex", "usernameIndeX"));
    assert!(!str_eq("a", "ab"));
    assert_eq!(string_of("Unauthenticated"), "Unauthenticated");
}

#[test]
fn starts_with_prefix() {
    assert!(starts_with("Basic abc", "Basic "));
    assert!(starts_with("Basic ", "Basic "));
    assert!(!starts_with("Basic", "Basic "));
    assert!(!starts_with("Bearer abc", "Basic "));
    assert!(starts_with("x", ""));
}

#[test]
fn remove_occurrences_matches_replace() {
    assert_eq!(remove_occurrences("Basic abc", "Basic "), "abc");
    assert_eq!(remove_occurrences("Basic aBasic b", "Basic "), "ab");
    assert_eq!(remove_occurrences("aaaa", "aa"), "");
    assert_eq!(remove_occurrences("aaa", "aa"), "a");
    assert_eq!(remove_occurrences("abc", ""), "abc");
    for (s, p) in [("BasicBasic  x", "Basic "), ("ababab", "aba"), ("", "x"), ("xyz", "xyzw")] {
        assert_eq!(remove_occurrences(s, p), s.replace(p, ""));
    }
}

#[test]
fn format_i64_writes_decimal() {
    assert_eq!(format_i64(0), "0");
    assert_eq!(format_i64(1700000000), "1700000000");
    assert_eq!(format_i64(-5), "-5");
    assert_eq!(format_i64(i64::MIN), i64::MIN.to_string());
    assert_eq!(format_i64(i64::MAX), i64::MAX.to_string());
}

#[test]
fn hex_encode_is_lower_case() {
    assert_eq!(hex_encode(&[0x00, 0xff, 0x10, 0xab]), "00ff10ab");
    assert_eq!(hex_encode(&[]), "");
}

#[test]
fn json_strings_are_escaped_as_serde_json_does() {
    for s in ["plain", "quote\"back\\slash", "line\nbreak\ttab\r", "\u{0}\u{1f}\u{8}\u{c}\u{7f}", "ünï😀/"] {
        let mut out = String::from("x");
        push_json_string(&mut out, s);
        assert_eq!(out, format!("x{}", serde_json::to_string(s).unwrap()), "{s:?}");
    }
    let mut out = String::new();
    push_json_string(&mut out, "a\"\u{1}");
    assert_eq!(out, "\"a\\\"\\u0001\"");
}
