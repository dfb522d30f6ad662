use openvpn_gui::path::join_path;
use openvpn_gui::text::{
    chars_of, str_concat, contains_str, decimal_string, join_chars, lines_chars, padded_decimal,
    parse_u16, parse_u64, split_chars, starts_with_str, str_eq, trim_end_matches_chars,
    trim_str,
};

fn s(v: &[char]) -> String {
    v.iter().collect()
}

#[test]
fn trim_removes_unicode_whitespace_on_both_ends() {
    assert_eq!(trim_str("  \t 42 \r\n"), "42");
    assert_eq!(trim_str("\u{a0}\u{3000}x y\u{2009}"), "x y");
    assert_eq!(trim_str("   "), "");
    assert_eq!(trim_str(""), "");
    assert_eq!(trim_str("a"), "a");
}

#[test]
fn lines_follow_str_lines() {
    let cases = ["", "\n", "a", "a\n", "a\r\nb\n", "a\n\nb", "x\r", "x\r\ny\r", "\r\n\r\n"];
    for c in cases {
        let got: Vec<String> = lines_chars(&chars_of(c)).iter().map(|l| s(l)).collect();
        let want: Vec<String> = c.lines().map(|l| l.to_string()).collect();
        assert_eq!(got, want, "lines of {:?}", c);
    }
}

#[test]
fn split_keeps_empty_pieces() {
    let got: Vec<String> = split_chars(&chars_of("a,,b,"), ',').iter().map(|p| s(p)).collect();
    assert_eq!(got, vec!["a", "", "b", ""]);
    let got: Vec<String> = split_chars(&chars_of(""), ',').iter().map(|p| s(p)).collect();
    assert_eq!(got, vec![""]);
}

#[test]
fn contains_and_starts_with() {
    assert!(contains_str("DISCONNECTED", "CONNECTED"));
    assert!(!contains_str("CONNECTING...", "CONNECTED"));
    assert!(contains_str("abc", ""));
    assert!(!contains_str("", "a"));
    assert!(starts_with_str("SUCCESS: x", "SUCCESS:"));
    assert!(!starts_with_str("SUCCES", "SUCCESS:"));
    assert!(str_eq("yes", "yes"));
    assert!(!str_eq("yes", "yes "));
}

#[test]
fn unsigned_parsing_matches_from_str() {
    for t in ["0", "+7", "65535", "65536", "", "+", "-1", "1 2", "007", "99999999999"] {
        assert_eq!(parse_u16(&chars_of(t)), t.parse::<u16>().ok(), "u16 {:?}", t);
        assert_eq!(parse_u64(&chars_of(t)), t.parse::<u64>().ok(), "u64 {:?}", t);
    }
    assert_eq!(parse_u64(&chars_of("18446744073709551615")), Some(u64::MAX));
    assert_eq!(parse_u64(&chars_of("18446744073709551616")), None);
}

#[test]
fn decimal_text_and_padding() {
    assert_eq!(decimal_string(0), "0");
    assert_eq!(decimal_string(20000), "20000");
    assert_eq!(decimal_string(u64::MAX), "18446744073709551615");
    assert_eq!(s(&padded_decimal(7, 2)), "07");
    assert_eq!(s(&padded_decimal(123, 2)), "123");
    assert_eq!(s(&padded_decimal(5, 4)), "0005");
}

#[test]
fn decimal_text_reads_back() {
    for n in [0u64, 9, 10, 65535, 123456789, u64::MAX] {
        assert_eq!(parse_u64(&chars_of(&decimal_string(n))), Some(n));
    }
}

#[test]
fn join_and_concat() {
    let parts = vec![chars_of("a"), chars_of(""), chars_of("bc")];
    assert_eq!(s(&join_chars(&parts, &chars_of("\n"))), "a\n\nbc");
    assert_eq!(s(&join_chars(&Vec::new(), &chars_of(","))), "");
    assert_eq!(str_concat("ab", "cd"), "abcd");
}

#[test]
fn trim_end_matches_removes_repeated_suffix() {
    let t = trim_end_matches_chars(&chars_of("a.ovpn.ovpn"), &chars_of(".ovpn"));
    assert_eq!(s(&t), "a");
    let t = trim_end_matches_chars(&chars_of("a.conf"), &chars_of(".ovpn"));
    assert_eq!(s(&t), "a.conf");
    let t = trim_end_matches_chars(&chars_of("abc"), &chars_of(""));
    assert_eq!(s(&t), "abc");
}

#[test]
fn path_join_follows_path_join() {
    for (b, c) in [("/tmp", "x"), ("/tmp/", "x"), ("", "x"), ("/tmp", "/abs"), ("a", "")] {
        let want = std::path::Path::new(b).join(c).to_string_lossy().into_owned();
        assert_eq!(join_path(b, c), want, "join {:?} {:?}", b, c);
    }
}
