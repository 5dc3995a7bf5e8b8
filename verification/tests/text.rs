use shownote::text::{
    append_decimal, byte_count, chars_of, decimal_text, is_space_char, numeral_capped, trim,
};

fn chars(s: &str) -> Vec<char> {
    s.chars().collect()
}

#[test]
fn white_space_is_what_std_calls_white_space() {
    let mut code: u32 = 0;
    while code <= 0x10FFFF {
        if let Some(c) = char::from_u32(code) {
            assert_eq!(is_space_char(c), c.is_whitespace(), "U+{:04X}", code);
        }
        code += 1;
    }
}

#[test]
fn chars_of_keeps_every_character() {
    assert_eq!(chars_of(""), Vec::<char>::new());
    assert_eq!(chars_of("a b"), vec!['a', ' ', 'b']);
    assert_eq!(chars_of("päivää ☕"), chars("päivää ☕"));
}

#[test]
fn trim_removes_white_space_around() {
    assert_eq!(trim("  3 \n"), vec!['3']);
    assert_eq!(trim("\t q\r\n"), vec!['q']);
    assert_eq!(trim("a b"), vec!['a', ' ', 'b']);
    assert_eq!(trim(""), Vec::<char>::new());
    assert_eq!(trim(" \n\t "), Vec::<char>::new());
    assert_eq!(trim("\u{3000}12\u{a0}\u{2003}"), vec!['1', '2']);
}

#[test]
fn trim_agrees_with_std() {
    let samples = [
        "", " ", "x", " x", "x ", "  x  y  ", "\n\n", "\u{85}q\u{2028}", "1 2 3", "\u{200b}7",
        "\u{feff}7 ", " \u{1680}quit\u{205f}",
    ];
    for s in samples {
        assert_eq!(trim(s), chars(s.trim()), "{:?}", s);
    }
}

#[test]
fn numeral_is_read_up_to_the_cap() {
    assert_eq!(numeral_capped(&chars("0"), 9), Some(0));
    assert_eq!(numeral_capped(&chars("7"), 9), Some(7));
    assert_eq!(numeral_capped(&chars("9"), 9), Some(9));
    assert_eq!(numeral_capped(&chars("10"), 9), Some(9));
    assert_eq!(numeral_capped(&chars("007"), 9), Some(7));
    assert_eq!(numeral_capped(&chars("+4"), 9), Some(4));
    assert_eq!(numeral_capped(&chars("123"), usize::MAX), Some(123));
    assert_eq!(numeral_capped(&chars("5"), 0), Some(0));
}

#[test]
fn numeral_larger_than_any_machine_integer_is_capped() {
    let huge = "340282366920938463463374607431768211456000";
    assert_eq!(numeral_capped(&chars(huge), 4), Some(4));
    assert_eq!(numeral_capped(&chars(huge), usize::MAX), Some(usize::MAX));
    let max = usize::MAX.to_string();
    assert_eq!(numeral_capped(&chars(&max), usize::MAX), Some(usize::MAX));
    assert_eq!(numeral_capped(&chars(&max), usize::MAX - 1), Some(usize::MAX - 1));
}

#[test]
fn what_is_no_numeral_is_refused() {
    for s in ["", "+", "-", "-1", "++1", "1+", "1 2", "1.0", "0x10", "1_000", "abc", " 1", "٣", "１"] {
        assert_eq!(numeral_capped(&chars(s), 100), None, "{:?}", s);
    }
}

#[test]
fn numeral_agrees_with_std_parse() {
    let samples = [
        "0", "1", "42", "+42", "0042", "18446744073709551615", "99999", "-0", "+", "", "4 2",
        "12a", "a12", "+-1", "१२",
    ];
    for s in samples {
        let expected = s.parse::<usize>().ok();
        assert_eq!(numeral_capped(&chars(s), usize::MAX), expected, "{:?}", s);
    }
}

#[test]
fn decimal_text_writes_the_number() {
    assert_eq!(decimal_text(0), "0");
    assert_eq!(decimal_text(7), "7");
    assert_eq!(decimal_text(10), "10");
    assert_eq!(decimal_text(1234567890), "1234567890");
    assert_eq!(decimal_text(usize::MAX), usize::MAX.to_string());
}

#[test]
fn append_decimal_writes_at_the_end() {
    let mut out = String::from("n = ");
    append_decimal(&mut out, 305);
    assert_eq!(out, "n = 305");
    append_decimal(&mut out, 0);
    assert_eq!(out, "n = 3050");
}

#[test]
fn decimal_text_reads_back() {
    for n in [0usize, 1, 9, 10, 11, 99, 100, 101, 65535, 1000000, usize::MAX] {
        assert_eq!(numeral_capped(&chars(&decimal_text(n)), usize::MAX), Some(n));
    }
}

#[test]
fn byte_count_counts_bytes_not_characters() {
    assert_eq!(byte_count(""), 0);
    assert_eq!(byte_count("abc"), 3);
    assert_eq!(byte_count("päivää"), 9);
    assert_eq!(byte_count("☕"), 3);
    assert_eq!(byte_count("\u{10348}"), 4);
    assert_eq!(byte_count("\0\n"), 2);
}
