use tenant_forge::text::{
    chars_of, contains, contains_chars, count_char, decimal_string, is_white_space, push_decimal,
    trim,
};

#[test]
fn chars_of_keeps_every_character_in_order() {
    assert_eq!(chars_of("a;b"), vec!['a', ';', 'b']);
    assert_eq!(chars_of(""), Vec::<char>::new());
    assert_eq!(chars_of("Código"), vec!['C', 'ó', 'd', 'i', 'g', 'o']);
}

#[test]
fn contains_finds_a_text_at_the_start_in_the_middle_and_at_the_end() {
    let hay = chars_of("DROP TABLE T");
    assert!(contains(&hay, "DROP "));
    assert!(contains(&hay, "TABLE"));
    assert!(contains(&hay, " T"));
    assert!(contains(&hay, "DROP TABLE T"));
}

#[test]
fn contains_rejects_what_is_not_there() {
    let hay = chars_of("DROP TABLE T");
    assert!(!contains(&hay, "DROP  "));
    assert!(!contains(&hay, "drop"));
    assert!(!contains(&hay, "DROP TABLE T "));
    assert!(!contains(&chars_of(""), "x"));
}

#[test]
fn contains_finds_the_empty_text_everywhere() {
    assert!(contains(&chars_of("abc"), ""));
    assert!(contains(&chars_of(""), ""));
}

#[test]
fn contains_resumes_after_a_partial_match() {
    assert!(contains(&chars_of("aaab"), "aab"));
    assert!(contains_chars(&chars_of("abababc"), &chars_of("ababc")));
    assert!(!contains_chars(&chars_of("ababab"), &chars_of("ababc")));
}

#[test]
fn contains_agrees_with_std_on_samples() {
    let hays = ["", "a", "ab", "abc", "aab", "ñandú ñ", "x y  z"];
    let needles = ["", "a", "b", "ab", "bc", "abc", "abcd", "ñ", "ú ", "  "];
    for hay in hays {
        for needle in needles {
            assert_eq!(contains(&chars_of(hay), needle), hay.contains(needle));
        }
    }
}

#[test]
fn count_char_counts_each_occurrence() {
    assert_eq!(count_char(&chars_of(""), ';'), 0);
    assert_eq!(count_char(&chars_of("a"), ';'), 0);
    assert_eq!(count_char(&chars_of(";"), ';'), 1);
    assert_eq!(count_char(&chars_of("a;b;c;"), ';'), 3);
    assert_eq!(count_char(&chars_of(";;;;"), ';'), 4);
}

#[test]
fn white_space_is_what_std_calls_white_space() {
    let mut code: u32 = 0;
    while code <= 0x10FFFF {
        if let Some(c) = char::from_u32(code) {
            assert_eq!(is_white_space(c), c.is_whitespace());
        }
        code += 1;
    }
}

#[test]
fn semicolon_is_not_white_space() {
    assert!(!is_white_space(';'));
    assert!(is_white_space(' '));
    assert!(is_white_space('\n'));
    assert!(is_white_space('\t'));
    assert!(is_white_space('\u{A0}'));
    assert!(is_white_space('\u{3000}'));
    assert!(!is_white_space('\u{200B}'));
}

#[test]
fn trim_removes_white_space_at_both_ends_only() {
    assert_eq!(trim("  a b  "), "a b");
    assert_eq!(trim("\n\tSELECT 1;\r\n"), "SELECT 1;");
    assert_eq!(trim("a"), "a");
    assert_eq!(trim(""), "");
    assert_eq!(trim("   "), "");
    assert_eq!(trim("\u{A0}ñ\u{3000}"), "ñ");
    assert_eq!(trim("DROP "), "DROP");
}

#[test]
fn trim_agrees_with_std_on_samples() {
    let samples = [
        "",
        " ",
        "x",
        " x",
        "x ",
        " x y ",
        "\u{2003}\u{2028}é\u{202F}",
        "\u{85}a\u{1680}",
        "\u{200B} a",
        "  ;  ;  ",
    ];
    for s in samples {
        assert_eq!(trim(s), s.trim());
    }
}

#[test]
fn decimal_string_writes_plain_decimal() {
    assert_eq!(decimal_string(0), "0");
    assert_eq!(decimal_string(7), "7");
    assert_eq!(decimal_string(10), "10");
    assert_eq!(decimal_string(5432), "5432");
    assert_eq!(decimal_string(1_000_000), "1000000");
    assert_eq!(decimal_string(u64::MAX), "18446744073709551615");
}

#[test]
fn decimal_string_agrees_with_std_on_a_range() {
    let mut n: u64 = 0;
    while n < 20_000 {
        assert_eq!(decimal_string(n), n.to_string());
        n += 1;
    }
}

#[test]
fn push_decimal_appends_to_what_is_there() {
    let mut s = String::from("port=");
    push_decimal(&mut s, 65535);
    assert_eq!(s, "port=65535");
    push_decimal(&mut s, 0);
    assert_eq!(s, "port=655350");
}
