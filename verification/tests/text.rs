use esphome_desktop::text::{
    char_is_digit, char_is_space, chars_of, decimal, join3, join5, join_path, same_text,
    starts_with, trim_bounds,
};

#[test]
fn chars_of_keeps_every_character() {
    assert_eq!(chars_of(""), Vec::<char>::new());
    assert_eq!(chars_of("a\u{e9}\u{1f600}z"), vec!['a', '\u{e9}', '\u{1f600}', 'z']);
}

#[test]
fn decimal_writes_numbers_in_base_ten() {
    assert_eq!(decimal(0), "0");
    assert_eq!(decimal(7), "7");
    assert_eq!(decimal(10), "10");
    assert_eq!(decimal(6052), "6052");
    assert_eq!(decimal(65535), "65535");
    for n in [1u16, 9, 11, 99, 100, 101, 999, 1000, 8080, 60000] {
        assert_eq!(decimal(n), n.to_string());
    }
}

#[test]
fn digits_are_the_ten_ascii_digits() {
    for c in '0'..='9' {
        assert!(char_is_digit(c));
    }
    assert!(!char_is_digit('/'));
    assert!(!char_is_digit(':'));
    assert!(!char_is_digit('a'));
    assert!(!char_is_digit('\u{0663}'));
}

#[test]
fn white_space_is_what_unicode_says() {
    for n in 0u32..0x3100 {
        if let Some(c) = char::from_u32(n) {
            assert_eq!(char_is_space(c), c.is_whitespace(), "U+{n:04X}");
        }
    }
}

#[test]
fn trim_bounds_agree_with_trim() {
    for s in ["", " ", "a", " a", "a ", "  a b  ", "\t\n x \r\n", "\u{3000}y\u{a0}", "   "] {
        let chars = chars_of(s);
        let (from, to) = trim_bounds(&chars);
        let kept: String = chars[from..to].iter().collect();
        assert_eq!(kept, s.trim(), "{s:?}");
    }
}

#[test]
fn starts_with_looks_at_the_part_only() {
    let text = chars_of("xxVersion: 1");
    let prefix = chars_of("Version: ");
    assert!(starts_with(&text, 2, text.len(), &prefix));
    assert!(!starts_with(&text, 0, text.len(), &prefix));
    assert!(!starts_with(&text, 2, 10, &prefix));
    assert!(starts_with(&text, 2, 11, &prefix));
    assert!(starts_with(&text, 5, 5, &Vec::new()));
}

#[test]
fn same_text_compares_characters() {
    assert!(same_text("", ""));
    assert!(same_text("quit", "quit"));
    assert!(!same_text("quit", "quit "));
    assert!(!same_text("quit", "quid"));
    assert!(!same_text("", "a"));
}

#[test]
fn join_path_puts_one_separator_between() {
    assert_eq!(join_path("/home/u", "esphome"), "/home/u/esphome");
    assert_eq!(join_path("/home/u/", "esphome"), "/home/u/esphome");
    assert_eq!(join_path("", "esphome"), "esphome");
    assert_eq!(join_path("/", "logs"), "/logs");
    assert_eq!(join_path("data", "logs"), "data/logs");
}

#[test]
fn texts_are_joined_in_order() {
    assert_eq!(join3("a", "", "c"), "ac");
    assert_eq!(join3("ab", "cd", "ef"), "abcdef");
    assert_eq!(join5("1", "2", "3", "4", "5"), "12345");
}
