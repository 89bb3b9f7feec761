//! The names under which a colour is registered with the editor: the
//! highlight group `NeoColor_rrggbb` and the background `#rrggbb`.

use vstd::prelude::*;
use vstd::string::*;

use crate::hex::Rgb;

verus! {

/// The lower-case hex digit of `n` (below 16).
pub open spec fn hex_digit(n: int) -> char {
    if n < 10 {
        (0x30 + n) as char
    } else {
        (0x57 + n) as char
    }
}

/// The byte `v` as two lower-case hex digits (`{:02x}`).
pub open spec fn hex_pair(v: u8) -> Seq<char> {
    seq![hex_digit((v / 16) as int), hex_digit((v % 16) as int)]
}

/// The colour as six lower-case hex digits, red, green, blue.
pub open spec fn hex_code(c: Rgb) -> Seq<char> {
    hex_pair(c.r) + hex_pair(c.g) + hex_pair(c.b)
}

fn digit_str(n: u8) -> (res: &'static str)
    requires
        n < 16,
    ensures
        res@ == seq![hex_digit(n as int)],
{
    if n == 0 {
        proof { reveal_strlit("0"); }
        "0"
    } else if n == 1 {
        proof { reveal_strlit("1"); }
        "1"
    } else if n == 2 {
        proof { reveal_strlit("2"); }
        "2"
    } else if n == 3 {
        proof { reveal_strlit("3"); }
        "3"
    } else if n == 4 {
        proof { reveal_strlit("4"); }
        "4"
    } else if n == 5 {
        proof { reveal_strlit("5"); }
        "5"
    } else if n == 6 {
        proof { reveal_strlit("6"); }
        "6"
    } else if n == 7 {
        proof { reveal_strlit("7"); }
        "7"
    } else if n == 8 {
        proof { reveal_strlit("8"); }
        "8"
    } else if n == 9 {
        proof { reveal_strlit("9"); }
        "9"
    } else if n == 10 {
        proof { reveal_strlit("a"); }
        "a"
    } else if n == 11 {
        proof { reveal_strlit("b"); }
        "b"
    } else if n == 12 {
        proof { reveal_strlit("c"); }
        "c"
    } else if n == 13 {
        proof { reveal_strlit("d"); }
        "d"
    } else if n == 14 {
        proof { reveal_strlit("e"); }
        "e"
    } else {
        proof { reveal_strlit("f"); }
        "f"
    }
}

fn push_pair(s: &mut String, v: u8)
    ensures
        final(s)@ == old(s)@ + hex_pair(v),
{
    s.append(digit_str(v / 16));
    s.append(digit_str(v % 16));
}

fn push_code(s: &mut String, c: Rgb)
    ensures
        final(s)@ == old(s)@ + hex_code(c),
{
    let ghost start = s@;
    push_pair(s, c.r);
    push_pair(s, c.g);
    push_pair(s, c.b);
    assert(s@ =~= start + hex_code(c));
}

/// The highlight group registered for colour `c`: `NeoColor_` and its hex code.
pub fn highlight_group(c: Rgb) -> (res: String)
    ensures
        res@ == "NeoColor_"@ + hex_code(c),
{
    let mut s = String::from_str("NeoColor_");
    push_code(&mut s, c);
    s
}

/// The background the group of colour `c` is given: `#` and its hex code.
pub fn background_code(c: Rgb) -> (res: String)
    ensures
        res@ == "#"@ + hex_code(c),
{
    let mut s = String::from_str("#");
    push_code(&mut s, c);
    s
}

} // verus!
