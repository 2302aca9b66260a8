use kon::text::{
    chars_of, contains, decimal, digit_str, ends_with, join, replace, same_text, signed_decimal,
    split, trim, trim_end,
};

#[test]
fn chars_of_gives_every_character() {
    assert_eq!(chars_of(""), Vec::<char>::new());
    assert_eq!(chars_of("a\u{e5}\u{1f600}z"), vec!['a', '\u{e5}', '\u{1f600}', 'z']);
}

#[test]
fn same_text_compares_contents() {
    assert!(same_text("", ""));
    assert!(same_text("abc", "abc"));
    assert!(!same_text("abc", "abd"));
    assert!(!same_text("abc", "ab"));
}

#[test]
fn digits_are_written_one_by_one() {
    for d in 0..10u64 {
        assert_eq!(digit_str(d), d.to_string());
    }
}

#[test]
fn decimal_writes_numbers_as_std_does() {
    for n in [0u64, 1, 9, 10, 11, 99, 100, 101, 999, 1000, 123456789, u64::MAX] {
        assert_eq!(decimal(n), n.to_string());
    }
    assert_eq!(decimal(18446744073709551615), "18446744073709551615");
}

#[test]
fn signed_decimal_writes_the_sign() {
    for n in [0i64, 1, -1, 42, -42, i64::MAX, i64::MIN, -10, 10] {
        assert_eq!(signed_decimal(n), n.to_string());
    }
    assert_eq!(signed_decimal(i64::MIN), "-9223372036854775808");
}

#[test]
fn split_cuts_at_every_occurrence() {
    assert_eq!(split("", '-'), vec![""]);
    assert_eq!(split("abc", '-'), vec!["abc"]);
    assert_eq!(split("a-b-c", '-'), vec!["a", "b", "c"]);
    assert_eq!(split("-a--b-", '-'), vec!["", "a", "", "b", ""]);
    assert_eq!(split("-", '-'), vec!["", ""]);
    for text in ["", "x", "a:b", ":a:", "::", "\u{e5}:\u{1f600}:z"] {
        let expected: Vec<String> = text.split(':').map(|piece| piece.to_string()).collect();
        assert_eq!(split(text, ':'), expected);
    }
}

#[test]
fn trim_end_drops_the_run_at_the_end() {
    assert_eq!(trim_end("12:00:00Z", 'Z'), "12:00:00");
    assert_eq!(trim_end("12:00:00ZZZ", 'Z'), "12:00:00");
    assert_eq!(trim_end("Z12Z00", 'Z'), "Z12Z00");
    assert_eq!(trim_end("ZZ", 'Z'), "");
    assert_eq!(trim_end("", 'Z'), "");
}

#[test]
fn join_puts_the_separator_between() {
    let none: Vec<String> = Vec::new();
    assert_eq!(join(&none, ", "), "");
    assert_eq!(join(&vec!["a".to_string()], ", "), "a");
    assert_eq!(join(&vec!["a".to_string(), "b".to_string(), "c".to_string()], ", "), "a, b, c");
    assert_eq!(join(&vec!["".to_string(), "".to_string()], "-"), "-");
}

#[test]
fn contains_finds_a_part_anywhere() {
    assert!(contains("dev", "dev"));
    assert!(contains("my-dev-box", "dev"));
    assert!(contains("prod", ""));
    assert!(contains("", ""));
    assert!(!contains("prod", "dev"));
    assert!(!contains("de", "dev"));
    assert!(!contains("dedev", "devv"));
    assert!(contains("dedev", "dev"));
}

#[test]
fn ends_with_looks_at_the_end_only() {
    assert!(ends_with("abc:fx", ":fx"));
    assert!(ends_with(":fx", ":fx"));
    assert!(ends_with("abc", ""));
    assert!(!ends_with("abc:fx ", ":fx"));
    assert!(!ends_with(":fxabc", ":fx"));
    assert!(!ends_with("fx", ":fx"));
}

#[test]
fn replace_follows_std() {
    let cases = [
        ("https://asia.example/asia/status", "asia", "eu"),
        ("asiaasia", "asia", "lg"),
        ("nothing here", "asia", "eu"),
        ("", "asia", "eu"),
        ("aaa", "aa", "b"),
        ("ab", "", "-"),
        ("", "", "-"),
        ("asi", "asia", "eu"),
        ("xasia", "asia", ""),
        ("\u{e5}asia\u{1f600}", "asia", "\u{e5}"),
    ];
    for (text, from, to) in cases {
        assert_eq!(replace(text, from, to), text.replace(from, to));
    }
    assert_eq!(replace("aaa", "aa", "b"), "ba");
    assert_eq!(replace("ab", "", "-"), "-a-b-");
}

#[test]
fn trim_follows_std() {
    let cases = [
        "",
        " ",
        "a",
        "  a  ",
        "\t\n a b \r\n",
        "\u{a0}x\u{3000}",
        "\u{2003}\u{2028}inner \u{85} blank\u{205f}\u{1680}",
        "\u{200b}zero width is no blank\u{200b}",
        "\u{b}\u{c}vertical\u{1f}",
        "   ",
    ];
    for text in cases {
        assert_eq!(trim(text), text.trim());
    }
    assert_eq!(trim("  Intel(R) Xeon(R)  "), "Intel(R) Xeon(R)");
}

#[test]
fn trim_knows_every_blank() {
    for code in 0..=0x3100u32 {
        if let Some(c) = char::from_u32(code) {
            let text = format!("{c}x{c}");
            assert_eq!(trim(&text), text.trim());
        }
    }
}
