use mana_dev::text::{
    chars_of, contains_str, decimal_text, ends_with_text, hex_text, is_white_space_char, replace_str,
    sort_texts, starts_with_text, string_from_chars, text_le_exec, trim_text,
};

#[test]
fn chars_round_trip() {
    let cs = chars_of("héllo");
    assert_eq!(cs, vec!['h', 'é', 'l', 'l', 'o']);
    assert_eq!(string_from_chars(&cs), "héllo");
}

#[test]
fn prefix_suffix_and_substring() {
    assert!(starts_with_text("{\"a\":1}", "{"));
    assert!(!starts_with_text("x{", "{"));
    assert!(ends_with_text("{\"a\":1}", "}"));
    assert!(!ends_with_text("}x", "}"));
    assert!(!ends_with_text("", "}"));
    assert!(contains_str("export class Target {}", "class Target"));
    assert!(!contains_str("class Targe", "class Target"));
    assert!(contains_str("abc", ""));
}

#[test]
fn replace_matches_std() {
    for (s, p, r) in [
        ("index.js", ".js", ".mana"),
        ("a.js.js", ".js", ".mana"),
        ("aaaa", "aa", "b"),
        ("no match", "xyz", "q"),
        ("", ".js", ".mana"),
        ("abc", "", "x"),
        ("", "", "x"),
        ("ab", "", ""),
    ] {
        assert_eq!(replace_str(s, p, r), s.replace(p, r));
    }
}

#[test]
fn trim_matches_std() {
    for s in ["  hi  ", "\t\n x y \r\n", "", "   ", "\u{3000}wide\u{85}", "\u{200b}kept\u{200b}"] {
        assert_eq!(trim_text(s), s.trim());
    }
    for c in ['\u{9}', '\u{b}', ' ', '\u{85}', '\u{a0}', '\u{1680}', '\u{2005}', '\u{2028}', '\u{3000}', 'a', '\u{200b}', '\u{180e}'] {
        assert_eq!(is_white_space_char(c), c.is_whitespace());
    }
}

#[test]
fn numbers_as_text() {
    assert_eq!(decimal_text(0), "0");
    assert_eq!(decimal_text(1234), "1234");
    assert_eq!(decimal_text(u128::MAX), format!("{}", u128::MAX));
    assert_eq!(hex_text(255), "ff");
    assert_eq!(hex_text(0), "0");
    assert_eq!(hex_text(0xdead_beef), format!("{:x}", 0xdead_beefu32));
}

#[test]
fn text_order_and_sort() {
    assert!(text_le_exec(&"abc".to_string(), &"abd".to_string()));
    assert!(text_le_exec(&"ab".to_string(), &"abc".to_string()));
    assert!(!text_le_exec(&"b".to_string(), &"abc".to_string()));
    let v = vec!["z.js".to_string(), "a.js".to_string(), "é.js".to_string(), "B.js".to_string(), "a.js".to_string()];
    let mut expected = v.clone();
    expected.sort();
    assert_eq!(sort_texts(v), expected);
}

#[test]
fn trimming_twice_changes_nothing() {
    for s in ["  a b  ", "\n", "x", "\u{2000} y \u{3000}"] {
        let once = trim_text(s);
        assert_eq!(trim_text(&once), once);
    }
}

#[test]
fn white_space_agrees_with_std_on_every_char() {
    for u in 0u32..0x110000 {
        if let Some(c) = char::from_u32(u) {
            assert_eq!(is_white_space_char(c), c.is_whitespace(), "U+{:04X}", u);
        }
    }
}
