use wisprarch::text::{
    chars_of, is_whitespace, parse_u64, same_text, split_lines, to_decimal, trim, trim_end,
    trim_start,
};

#[test]
fn trim_agrees_with_the_standard_library() {
    let cases = [
        "",
        " ",
        "a",
        "  a  ",
        "\t\n a b \r\n",
        "\u{a0}x\u{a0}",
        "\u{2003}wide\u{3000}",
        "\u{200b}zero width is no space\u{200b}",
        "\u{85}next line\u{1680}",
        "\u{2028}\u{2029}\u{202f}\u{205f}x",
        "é  è",
        "   ",
    ];
    for s in cases {
        assert_eq!(trim(s), s.trim(), "trim of {:?}", s);
        assert_eq!(trim_start(s), s.trim_start(), "trim_start of {:?}", s);
        assert_eq!(trim_end(s), s.trim_end(), "trim_end of {:?}", s);
    }
}

#[test]
fn white_space_agrees_with_the_standard_library() {
    for n in 0..0x3100u32 {
        if let Some(c) = char::from_u32(n) {
            assert_eq!(is_whitespace(c), c.is_whitespace(), "U+{:04X}", n);
        }
    }
    assert!(!is_whitespace('\u{feff}'));
}

#[test]
fn lines_agree_with_the_standard_library() {
    let cases = [
        "",
        "\n",
        "a",
        "a\n",
        "a\nb",
        "a\r\nb\r\n",
        "a\rb\n",
        "\r",
        "\r\n",
        "foo\nbar\n\r\nbaz\r",
        "\n\n",
        "a\r\r\nb",
        "é\nü\n",
    ];
    for s in cases {
        let expected: Vec<String> = s.lines().map(|l| l.to_string()).collect();
        assert_eq!(split_lines(s), expected, "lines of {:?}", s);
    }
}

#[test]
fn decimal_writes_and_reads_numbers() {
    for n in [0u64, 1, 9, 10, 11, 99, 100, 12345, 1_000_000_007, u64::MAX - 1, u64::MAX] {
        assert_eq!(to_decimal(n), n.to_string());
        assert_eq!(parse_u64(&n.to_string()), Some(n));
    }
    let cases = [
        "", "+", "-", "-0", "+0", "007", "+42", "4 2", " 42", "42 ", "0x10", "1e3", "१२",
        "18446744073709551615", "18446744073709551616", "99999999999999999999999", "++1", "1+",
    ];
    for s in cases {
        assert_eq!(parse_u64(s), s.parse::<u64>().ok(), "parse of {:?}", s);
    }
}

#[test]
fn same_text_compares_characters() {
    assert!(same_text("", ""));
    assert!(same_text("wtype", "wtype"));
    assert!(!same_text("wtype", "wtypE"));
    assert!(!same_text("wtype", "wtyp"));
    assert!(!same_text("a", ""));
    assert!(same_text("é", "\u{e9}"));
    assert!(!same_text("é", "e\u{301}"));
    assert_eq!(chars_of("aé⡇"), vec!['a', 'é', '⡇']);
}

#[test]
fn contains_and_replace_agree_with_the_standard_library() {
    let hays = ["", "a", "aaa", "abcabc", "xaax", "ab", "ééé", "a\nb"];
    let needles = ["a", "aa", "abc", "b", "é", "\n", "abcabcabc"];
    for hay in hays {
        for needle in needles {
            assert_eq!(
                wisprarch::text::contains(hay, needle),
                hay.contains(needle),
                "{:?} in {:?}",
                needle,
                hay
            );
            for with in ["", "-", needle, "aa"] {
                assert_eq!(
                    wisprarch::text::replace(hay, needle, with),
                    hay.replace(needle, with),
                    "{:?} for {:?} in {:?}",
                    with,
                    needle,
                    hay
                );
            }
        }
        assert!(wisprarch::text::contains(hay, ""));
    }
}
