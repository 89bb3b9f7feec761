use neocolor::hex::{parse_hex, parse_hex_would_panic, parse_radix16_pair, Rgb};
use neocolor::names::{background_code, highlight_group};

fn rgb(r: u8, g: u8, b: u8) -> Rgb {
    Rgb { r, g, b }
}

#[test]
fn six_digit_code_reads_as_three_channels() {
    assert_eq!(parse_hex("ff8800"), Some(rgb(255, 136, 0)));
    assert_eq!(parse_hex("3C3C3C"), Some(rgb(60, 60, 60)));
}

#[test]
fn alpha_pair_is_ignored() {
    assert_eq!(parse_hex("ff880080"), Some(rgb(255, 136, 0)));
    assert_eq!(parse_hex("ff8800"), parse_hex("ff880012"));
}

#[test]
fn short_code_doubles_each_digit() {
    assert_eq!(parse_hex("f80"), Some(rgb(255, 136, 0)));
    assert_eq!(parse_hex("abc"), parse_hex("aabbcc"));
    assert_eq!(parse_hex("abcd"), parse_hex("aabbccdd"));
}

#[test]
fn other_lengths_denote_nothing() {
    assert_eq!(parse_hex(""), None);
    assert_eq!(parse_hex("ab"), None);
    assert_eq!(parse_hex("12345"), None);
}

#[test]
fn non_hex_digits_denote_nothing() {
    assert_eq!(parse_hex("zz0000"), None);
    assert_eq!(parse_hex("00zz00"), None);
    assert_eq!(parse_hex("-f0000"), None);
}

#[test]
fn plus_sign_is_accepted_as_radix_reading_does() {
    assert_eq!(parse_radix16_pair(b'+', b'f'), Some(15));
    assert_eq!(parse_hex("+f+f+f"), Some(rgb(15, 15, 15)));
    assert_eq!(parse_radix16_pair(b'+', b'+'), None);
    assert_eq!(parse_radix16_pair(b'A', b'b'), Some(0xab));
}

#[test]
fn cutting_inside_a_character_is_detected() {
    // "a" then a two-byte character: offset 2 falls inside it.
    assert!(parse_hex_would_panic("a\u{e9}0000"));
    // Two-byte characters only: every cut is on a boundary, and the first
    // channel fails to read before anything else is cut.
    assert!(!parse_hex_would_panic("\u{e9}\u{e9}\u{e9}"));
    assert!(!parse_hex_would_panic("ff8800"));
    assert!(!parse_hex_would_panic("f80"));
    // First channel reads, second cut falls inside a character.
    assert!(parse_hex_would_panic("ff0\u{e9}00"));
}

#[test]
fn highlight_names_use_lower_case_hex() {
    assert_eq!(highlight_group(rgb(255, 136, 0)), "NeoColor_ff8800");
    assert_eq!(background_code(rgb(255, 136, 0)), "#ff8800");
    assert_eq!(highlight_group(rgb(0, 10, 171)), "NeoColor_000aab");
}

#[test]
fn background_code_reads_back() {
    for c in [rgb(0, 0, 0), rgb(255, 255, 255), rgb(1, 2, 3), rgb(171, 205, 239)] {
        let code = background_code(c);
        assert_eq!(parse_hex(&code[1..]), Some(c));
    }
}
