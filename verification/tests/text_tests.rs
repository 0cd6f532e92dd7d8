use pointer::agent::is_uitars_model;
use pointer::text::{
    decimal_string, find_chars, find_either_chars, from_chars, lines_chars, parse_unsigned_chars,
    push_chars, rfind_chars, split_nth_chars, starts_with_chars, strip_prefix_chars, to_chars,
    trim_end_matches_chars, trim_start_matches_chars, trim_str, white_space, zero_padded,
    ends_with_chars, contains_chars,
};
use pointer::tour::step_card;

fn chars(s: &str) -> Vec<char> {
    s.chars().collect()
}

fn text(v: &[char]) -> String {
    v.iter().collect()
}

#[test]
fn white_space_matches_std_for_every_char() {
    for u in 0u32..=0x10FFFF {
        if let Some(c) = char::from_u32(u) {
            assert_eq!(white_space(c), c.is_whitespace(), "char {:#x}", u);
        }
    }
}

#[test]
fn trim_matches_std() {
    for s in ["", "  a b  ", "\t\n x\r\n", "\u{3000}wide\u{2028}", "\u{85}x\u{a0}", "none"] {
        assert_eq!(trim_str(s), s.trim());
    }
}

#[test]
fn chars_round_trip() {
    let s = "héllo — ⚠ wörld";
    assert_eq!(to_chars(s), chars(s));
    assert_eq!(from_chars(&to_chars(s)), s);
    let mut t = String::from("ab");
    push_chars(&mut t, &['ç', '⚠']);
    assert_eq!(t, "abç⚠");
}

#[test]
fn find_matches_std_in_char_positions() {
    let cases = [("abcabc", "bc"), ("abc", ""), ("abc", "x"), ("ééa", "a"), ("", ""), ("aa", "aaa")];
    for (s, p) in cases {
        let expected = s.find(p).map(|b| s[..b].chars().count());
        assert_eq!(find_chars(&chars(s), &chars(p)), expected, "{s:?} {p:?}");
        let expected_r = s.rfind(p).map(|b| s[..b].chars().count());
        assert_eq!(rfind_chars(&chars(s), &chars(p)), expected_r, "{s:?} {p:?}");
        assert_eq!(contains_chars(&chars(s), &chars(p)), s.contains(p));
    }
}

#[test]
fn find_either_matches_std() {
    for s in ["up, amount=3)", "down)", "left", ""] {
        let expected = s.find([',', ')']).map(|b| s[..b].chars().count());
        assert_eq!(find_either_chars(&chars(s), ',', ')'), expected);
    }
}

#[test]
fn prefixes_and_suffixes() {
    assert!(starts_with_chars(&chars("Action: x"), &chars("Action:")));
    assert!(!starts_with_chars(&chars("Act"), &chars("Action:")));
    assert!(ends_with_chars(&chars("abc```"), &chars("```")));
    assert_eq!(strip_prefix_chars(&chars("type(x)"), &chars("type(")).map(|v| text(&v)), Some("x)".to_string()));
    assert_eq!(strip_prefix_chars(&chars("tipe(x)"), &chars("type(")), None);
}

#[test]
fn trim_matches_patterns_like_std() {
    let s = "```json```json{x}``````";
    assert_eq!(text(&trim_start_matches_chars(&chars(s), &chars("```json"))), s.trim_start_matches("```json"));
    assert_eq!(text(&trim_end_matches_chars(&chars(s), &chars("```"))), s.trim_end_matches("```"));
    assert_eq!(text(&trim_end_matches_chars(&chars("http://h/v1///"), &chars("/"))), "http://h/v1");
    assert_eq!(text(&trim_start_matches_chars(&chars("abc"), &chars(""))), "abc");
}

#[test]
fn split_nth_matches_std() {
    let cases = [("Step 1 — Click: x — y", "— ", 1), ("a:b:c", ":", 0), ("a:b:c", ":", 2), ("a:b", ":", 5), ("", ":", 0)];
    for (s, p, n) in cases {
        let expected = s.split(p).nth(n).map(|x| x.to_string());
        assert_eq!(split_nth_chars(&chars(s), &chars(p), n).map(|v| text(&v)), expected, "{s:?}");
    }
}

#[test]
fn lines_match_std() {
    for s in ["", "a", "a\n", "\n", "a\r\nb\n\r\nc\r", "foo\nbar\n\r\nbaz\r", "x\n\ny"] {
        let got: Vec<String> = lines_chars(&chars(s)).iter().map(|l| text(l)).collect();
        let expected: Vec<String> = s.lines().map(|l| l.to_string()).collect();
        assert_eq!(got, expected, "{s:?}");
    }
}

#[test]
fn unsigned_parsing_matches_std() {
    for s in ["0", "007", "+5", "-5", "", "+", "-", " 5", "4294967295", "4294967296", "12a", "++1"] {
        let got = parse_unsigned_chars(&chars(s), u32::MAX as u64);
        assert_eq!(got, s.parse::<u32>().ok().map(|v| v as u64), "{s:?}");
        let got16 = parse_unsigned_chars(&chars(s), u16::MAX as u64);
        assert_eq!(got16, s.parse::<u16>().ok().map(|v| v as u64), "{s:?}");
    }
}

#[test]
fn decimal_and_padding() {
    for n in [0u64, 7, 10, 99, 100, 12345, u64::MAX] {
        assert_eq!(decimal_string(n), n.to_string());
    }
    assert_eq!(text(&zero_padded(7, 4)), "0007");
    assert_eq!(text(&zero_padded(2026, 4)), "2026");
    assert_eq!(text(&zero_padded(12345, 4)), "12345");
    assert_eq!(text(&zero_padded(0, 2)), "00");
}

#[test]
fn parse_reads_back_printed_numbers() {
    for n in [0u64, 9, 200, 65535] {
        assert_eq!(parse_unsigned_chars(&chars(&decimal_string(n)), u16::MAX as u64), Some(n));
    }
}

#[test]
fn case_mapping_through_callers() {
    // Lower-casing is what lets a mixed-case name be recognised.
    assert!(is_uitars_model("Bytedance/UI-TARS"));
    assert!(is_uitars_model("UITARS-7b"));
    // Upper-casing is what puts the action in capitals in the heading.
    assert_eq!(step_card(1, "Double-click", false).heading, "Step 1  ·  DOUBLE-CLICK");
    assert_eq!(step_card(2, "straße", false).heading, "Step 2  ·  STRASSE");
}
