use readyset_scheduler::text::{
    chars_of, decimal_text, find, has, matches_at, parse_u16, replace, same_text, second_piece,
    trim, white_space,
};

#[test]
fn replace_takes_matches_from_the_left() {
    assert_eq!(replace("aaaa", "aa", "b"), "bb");
    assert_eq!(replace("aaa", "aa", "b"), "ba");
    assert_eq!(replace("abcabc", "bc", "X"), "aXaX");
    assert_eq!(replace("nothing here", "zz", "y"), "nothing here");
    assert_eq!(replace("", "a", "b"), "");
    assert_eq!(replace("a", "abc", "b"), "a");
    assert_eq!(replace("abc", "", "x"), "abc");
}

#[test]
fn replace_agrees_with_std_on_samples() {
    let hays = [
        "?,?,?,...",
        "SELECT a FROM t WHERE id IN (?,?,?,...) AND d = ?-?-?",
        "?-?-?-?-?",
        "?,?,?,...,...",
        "xx?,?,?,..yy",
        "é?-?-?ü",
        "",
    ];
    for hay in hays {
        assert_eq!(replace(hay, "?,?,?,...", "?,?,?"), hay.replace("?,?,?,...", "?,?,?"));
        assert_eq!(replace(hay, "?-?-?", "?"), hay.replace("?-?-?", "?"));
    }
}

#[test]
fn replace_handles_text_outside_ascii() {
    assert_eq!(replace("añb añb", "añ", "-"), "-b -b");
}

#[test]
fn white_space_is_what_std_calls_white_space() {
    let mut code: u32 = 0;
    while code <= 0x10ffff {
        if let Some(c) = char::from_u32(code) {
            assert_eq!(white_space(c), c.is_whitespace(), "at U+{:04X}", code);
        }
        code += 1;
    }
}

#[test]
fn trim_agrees_with_std_on_samples() {
    let samples = [
        "  2024-01-02 03:04:05 ",
        "\t\n x y \u{a0}",
        "",
        "   ",
        "no space",
        "\u{3000}wide\u{2003}",
        " inner  space kept ",
    ];
    for sample in samples {
        assert_eq!(trim(sample), sample.trim());
    }
}

#[test]
fn second_piece_is_what_split_gives_second() {
    let token = "Mirror by readyset scheduler at:";
    let samples = [
        "Mirror by readyset scheduler at: 2024-01-02 03:04:05",
        "no token at all",
        "x Mirror by readyset scheduler at: a Mirror by readyset scheduler at: b",
        "Mirror by readyset scheduler at:",
        "",
    ];
    for sample in samples {
        assert_eq!(second_piece(sample, token), sample.split(token).nth(1).unwrap_or(""));
    }
    assert_eq!(second_piece("a--b--c", "--"), "b");
    assert_eq!(second_piece("a--b", "--"), "b");
    assert_eq!(second_piece("ab", "--"), "");
    assert_eq!(second_piece("ab", ""), "");
}

#[test]
fn parse_u16_agrees_with_std_on_samples() {
    let samples = [
        "0", "1", "65535", "65536", "+7", "+", "", "-1", "12a", " 12", "0000000000000000000042",
        "99999999999999999999", "6032", "+65535", "++1", "٣",
    ];
    for sample in samples {
        assert_eq!(parse_u16(sample), sample.parse::<u16>().ok(), "for {:?}", sample);
    }
}

#[test]
fn parse_u16_reads_every_value() {
    let mut n: u32 = 0;
    while n <= 65535 {
        assert_eq!(parse_u16(&format!("{}", n)), Some(n as u16));
        n += 257;
    }
    assert_eq!(parse_u16("65535"), Some(65535));
    assert_eq!(parse_u16("65536"), None);
}

#[test]
fn decimal_text_writes_numbers_as_std_does() {
    let samples: [u64; 9] = [0, 1, 9, 10, 99, 100, 65535, 1234567890, u64::MAX];
    for n in samples {
        assert_eq!(decimal_text(n), format!("{}", n));
    }
}

#[test]
fn search_finds_the_first_match() {
    let hay = chars_of("abcabc");
    let pat = chars_of("bc");
    assert_eq!(find(&hay, &pat, 0), Some(1));
    assert_eq!(find(&hay, &pat, 2), Some(4));
    assert_eq!(find(&hay, &pat, 5), None);
    assert_eq!(find(&hay, &chars_of(""), 6), Some(6));
    assert_eq!(find(&hay, &chars_of(""), 7), None);
    assert!(matches_at(&hay, &pat, 4));
    assert!(!matches_at(&hay, &pat, 5));
    assert!(!matches_at(&hay, &pat, 100));
}

#[test]
fn has_and_same_text() {
    assert!(has("my readyset host", "readyset"));
    assert!(!has("my ready set host", "readyset"));
    assert!(has("anything", ""));
    assert!(same_text("abc", "abc"));
    assert!(!same_text("abc", "abd"));
    assert!(!same_text("abc", "ab"));
}
