//! Hexadecimal colour codes: reading `RRGGBB[AA]` / `RGB[A]` digit strings and
//! writing a colour back as six lower-case hex digits.

use vstd::prelude::*;
use vstd::string::*;
use vstd::utf8::*;

verus! {

/// A colour as three 8-bit channels.
#[derive(Clone, Copy, Debug, PartialEq, Eq, Structural)]
pub struct Rgb {
    pub r: u8,
    pub g: u8,
    pub b: u8,
}

/// `c` is an ASCII hexadecimal digit (`0-9`, `a-f`, `A-F`).
pub open spec fn is_hex_digit(c: u8) -> bool {
    (0x30 <= c <= 0x39) || (0x61 <= c <= 0x66) || (0x41 <= c <= 0x46)
}

/// The value of the hexadecimal digit `c`.
pub open spec fn hex_value(c: u8) -> nat {
    if 0x30 <= c <= 0x39 {
        (c - 0x30) as nat
    } else if 0x61 <= c <= 0x66 {
        (c - 0x61 + 10) as nat
    } else {
        (c - 0x41 + 10) as nat
    }
}

/// Reading the two-byte text `[a, b]` as a base-16 `u8`: an optional leading
/// `+` followed by digits only, as `u8::from_str_radix(_, 16)` reads it.
pub open spec fn radix16_pair(a: u8, b: u8) -> Option<u8> {
    if a == 0x2b {
        if is_hex_digit(b) {
            Some(hex_value(b) as u8)
        } else {
            None
        }
    } else if is_hex_digit(a) && is_hex_digit(b) {
        Some((16 * hex_value(a) + hex_value(b)) as u8)
    } else {
        None
    }
}

/// The colour that a digit string denotes: with six or more bytes the first
/// six are three channel pairs (so an alpha pair, or anything after, is
/// ignored); with three or four bytes each of the first three bytes is a
/// channel written once and read doubled; any other length denotes nothing.
pub open spec fn spec_parse_hex(s: Seq<u8>) -> Option<Rgb> {
    if s.len() >= 6 {
        match (radix16_pair(s[0], s[1]), radix16_pair(s[2], s[3]), radix16_pair(s[4], s[5])) {
            (Some(r), Some(g), Some(b)) => Some(Rgb { r, g, b }),
            _ => None,
        }
    } else if s.len() == 3 || s.len() == 4 {
        match (radix16_pair(s[0], s[0]), radix16_pair(s[1], s[1]), radix16_pair(s[2], s[2])) {
            (Some(r), Some(g), Some(b)) => Some(Rgb { r, g, b }),
            _ => None,
        }
    } else {
        None
    }
}

/// Reading the digit string channel by channel cuts the text at a byte offset
/// that is not a character boundary, before any channel failed to read.
pub open spec fn parse_hex_panics(s: Seq<u8>) -> bool {
    if s.len() >= 6 {
        ||| !is_char_boundary(s, 2)
        ||| radix16_pair(s[0], s[1]) is Some && !is_char_boundary(s, 4)
        ||| radix16_pair(s[0], s[1]) is Some && radix16_pair(s[2], s[3]) is Some
            && !is_char_boundary(s, 6)
    } else if s.len() == 3 || s.len() == 4 {
        ||| !is_char_boundary(s, 1)
        ||| radix16_pair(s[0], s[0]) is Some && !is_char_boundary(s, 2)
        ||| radix16_pair(s[0], s[0]) is Some && radix16_pair(s[1], s[1]) is Some
            && !is_char_boundary(s, 3)
    } else {
        false
    }
}

fn hex_digit_value(c: u8) -> (res: Option<u8>)
    ensures
        res == (if is_hex_digit(c) { Some(hex_value(c) as u8) } else { None::<u8> }),
{
    if 0x30 <= c && c <= 0x39 {
        Some(c - 0x30)
    } else if 0x61 <= c && c <= 0x66 {
        Some(c - 0x61 + 10)
    } else if 0x41 <= c && c <= 0x46 {
        Some(c - 0x41 + 10)
    } else {
        None
    }
}

/// Reads the two-byte text `[a, b]` in base 16.
pub fn parse_radix16_pair(a: u8, b: u8) -> (res: Option<u8>)
    ensures
        res == radix16_pair(a, b),
{
    if a == 0x2b {
        hex_digit_value(b)
    } else {
        match (hex_digit_value(a), hex_digit_value(b)) {
            (Some(x), Some(y)) => Some(16 * x + y),
            _ => None,
        }
    }
}

/// Whether reading `hex` with [`parse_hex`] would cut it inside a character.
pub fn parse_hex_would_panic(hex: &str) -> (res: bool)
    ensures
        res == parse_hex_panics(hex.spec_bytes()),
{
    let bytes = hex.as_bytes();
    let n = bytes.len();
    if n >= 6 {
        if !hex.is_char_boundary(2) {
            return true;
        }
        let r = parse_radix16_pair(bytes[0], bytes[1]);
        if r.is_none() {
            return false;
        }
        if !hex.is_char_boundary(4) {
            return true;
        }
        let g = parse_radix16_pair(bytes[2], bytes[3]);
        if g.is_none() {
            return false;
        }
        !hex.is_char_boundary(6)
    } else if n == 3 || n == 4 {
        if !hex.is_char_boundary(1) {
            return true;
        }
        let r = parse_radix16_pair(bytes[0], bytes[0]);
        if r.is_none() {
            return false;
        }
        if !hex.is_char_boundary(2) {
            return true;
        }
        let g = parse_radix16_pair(bytes[1], bytes[1]);
        if g.is_none() {
            return false;
        }
        !hex.is_char_boundary(3)
    } else {
        false
    }
}

/// The colour that the hex digit string `hex` (without its `#`) denotes.
pub fn parse_hex(hex: &str) -> (res: Option<Rgb>)
    requires
        !parse_hex_panics(hex.spec_bytes()),
    ensures
        res == spec_parse_hex(hex.spec_bytes()),
{
    let bytes = hex.as_bytes();
    let n = bytes.len();
    if n >= 6 {
        let r = parse_radix16_pair(bytes[0], bytes[1]);
        let g = parse_radix16_pair(bytes[2], bytes[3]);
        let b = parse_radix16_pair(bytes[4], bytes[5]);
        match (r, g, b) {
            (Some(r), Some(g), Some(b)) => Some(Rgb { r, g, b }),
            _ => None,
        }
    } else if n == 3 || n == 4 {
        let r = parse_radix16_pair(bytes[0], bytes[0]);
        let g = parse_radix16_pair(bytes[1], bytes[1]);
        let b = parse_radix16_pair(bytes[2], bytes[2]);
        match (r, g, b) {
            (Some(r), Some(g), Some(b)) => Some(Rgb { r, g, b }),
            _ => None,
        }
    } else {
        None
    }
}

} // verus!
