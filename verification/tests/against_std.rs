use cloudmemo::client::models::note::{is_white_space_char, Note};
use cloudmemo::server::handlers::auth::hex_lower;
use cloudmemo::text::decimal_string;

#[test]
fn white_space_matches_char_is_whitespace() {
    for code in 0u32..0x3100 {
        if let Some(c) = char::from_u32(code) {
            assert_eq!(is_white_space_char(c), c.is_whitespace(), "U+{:04X}", code);
        }
    }
    for c in ['\u{feff}', '\u{200b}', '\u{e000}', '\u{10ffff}'] {
        assert_eq!(is_white_space_char(c), c.is_whitespace());
    }
}

#[test]
fn word_count_matches_split_whitespace() {
    let samples = [
        "",
        " ",
        "one",
        "  leading and trailing  ",
        "tabs\tand\nnew\r\nlines",
        "ideographic\u{3000}space",
        "no-break\u{a0}space",
        "中文 没有 空格的句子",
        "\u{2028}\u{2029}\u{85}x",
    ];
    for s in samples {
        assert_eq!(Note::count_words(s) as usize, s.split_whitespace().count(), "{:?}", s);
    }
}

#[test]
fn excerpt_matches_first_two_hundred_chars() {
    for n in [0usize, 1, 199, 200, 201, 450] {
        let s: String = "é".repeat(n);
        let expected = if n <= 200 { None } else { Some(s.chars().take(200).collect::<String>()) };
        assert_eq!(Note::generate_excerpt(&s), expected);
    }
}

#[test]
fn decimal_and_hex_match_formatting() {
    for n in [0u64, 7, 10, 99, 100, 65535, 5242880, 9_999_999_999, u64::MAX] {
        assert_eq!(decimal_string(n), n.to_string());
    }
    let bytes: Vec<u8> = (0u8..=255).collect();
    let expected: String = bytes.iter().map(|b| format!("{:02x}", b)).collect();
    assert_eq!(hex_lower(&bytes), expected);
}
