use dictionay_link_batch::text::{
    chars_of, is_true_word_str, is_white_space_char, parse_trimmed_usize, parse_u16, parse_usize,
    push_decimal, trim_chars,
};

const SAMPLES: &[&str] = &[
    "", "0", "1", "+", "-", "+0", "-0", "-1", "+1433", "1433", "01433", " 1433", "1433 ", "14 33",
    "65535", "65536", "99999999999", "18446744073709551615", "18446744073709551616", "1e3", "0x10",
    "٣", "१२", "++1", "+-1", "abc", "12a", "\u{3000}7", "7\n",
];

#[test]
fn parse_u16_matches_std_parse() {
    for s in SAMPLES {
        assert_eq!(parse_u16(s), s.parse::<u16>().ok(), "input {:?}", s);
    }
}

#[test]
fn parse_usize_matches_std_parse() {
    for s in SAMPLES {
        assert_eq!(parse_usize(s), s.parse::<usize>().ok(), "input {:?}", s);
    }
}

#[test]
fn parse_trimmed_usize_matches_std_trim_then_parse() {
    let extra: &[&str] = &[
        " 3\n", "\t\t2\r\n", "\u{3000}12\u{2029}", "\u{85}4\u{a0}", " ", "\n", " 1 2 ",
        "\u{200b}5",
    ];
    for s in SAMPLES.iter().chain(extra.iter()) {
        assert_eq!(parse_trimmed_usize(s), s.trim().parse::<usize>().ok(), "input {:?}", s);
    }
}

#[test]
fn parse_u16_exact_values() {
    assert_eq!(parse_u16("1433"), Some(1433));
    assert_eq!(parse_u16("+80"), Some(80));
    assert_eq!(parse_u16("65535"), Some(65535));
    assert_eq!(parse_u16("65536"), None);
    assert_eq!(parse_u16("-1"), None);
    assert_eq!(parse_u16(""), None);
    assert_eq!(parse_u16("+"), None);
    assert_eq!(parse_u16("00080"), Some(80));
}

#[test]
fn white_space_matches_std_for_every_char() {
    for u in 0u32..=0x10FFFF {
        if let Some(c) = char::from_u32(u) {
            assert_eq!(is_white_space_char(c), c.is_whitespace(), "char {:#x}", u);
        }
    }
}

#[test]
fn trim_matches_std_trim() {
    let samples = [
        "", "   ", "abc", "  abc  ", "\n\tabc def\r\n", "\u{3000}x\u{2028}", "\u{200b}x\u{200b}",
        "a b", "\u{85}\u{a0}",
    ];
    for s in samples {
        let trimmed: String = trim_chars(&chars_of(s)).into_iter().collect();
        assert_eq!(trimmed, s.trim(), "input {:?}", s);
    }
}

#[test]
fn chars_of_keeps_every_char() {
    assert_eq!(chars_of("añ\u{3000}z"), vec!['a', 'ñ', '\u{3000}', 'z']);
    assert_eq!(chars_of(""), Vec::<char>::new());
}

#[test]
fn true_word_matches_lowercase_comparison() {
    let samples = ["true", "TRUE", "True", "tRuE", "false", "yes", "1", "", "true ", " true", "truee", "tru"];
    for s in samples {
        assert_eq!(is_true_word_str(s), s.to_lowercase() == "true", "input {:?}", s);
    }
}

#[test]
fn push_decimal_matches_format() {
    let values = [0u64, 1, 9, 10, 11, 99, 100, 1433, 65535, 1_000_000, u64::MAX];
    for v in values {
        let mut s = String::from("n=");
        push_decimal(&mut s, v);
        assert_eq!(s, format!("n={}", v));
    }
}
