//! Properties of the library as a whole.

use vstd::prelude::*;
use vstd::utf8::*;

use crate::hex::{is_hex_digit, hex_value, radix16_pair, spec_parse_hex, Rgb};
use crate::marks::{
    family_steps,
    groups_placed,
    line_steps,
    mark_step,
    skip_hashes,
    spec_filetype_kind,
    FileKind,
    Mark,
    Paint,
};
use crate::matching::{group_placed, Groups};
use crate::named::named_color;
use crate::names::{hex_code, hex_digit, hex_pair};
use crate::patterns::Pattern;
use crate::resolve::resolve_from;
use crate::scan::buffer_steps;
use crate::steps::{fresh, lemma_run_items, run_steps, Halt, Step};
use crate::text::{ascii_lowercase, decoded, is_ascii_chars, is_char_range};
use crate::vars::insert_all;
use crate::units::{lemma_component_fits, lemma_hue_fits, Component, Hue};

verus! {

proof fn lemma_hex_digit_reads(n: int)
    requires
        0 <= n < 16,
    ensures
        is_hex_digit(hex_digit(n) as u8),
        hex_value(hex_digit(n) as u8) == n,
{
}

proof fn lemma_pair_reads(v: u8)
    ensures
        radix16_pair(hex_pair(v)[0] as u8, hex_pair(v)[1] as u8) == Some(v),
{
    lemma_hex_digit_reads((v / 16) as int);
    lemma_hex_digit_reads((v % 16) as int);
}

/// A colour's hex code (the background it is registered with, without its
/// `#`) reads back as that colour.
pub proof fn law_hex_code_reads_back(c: Rgb)
    ensures
        spec_parse_hex(encode_utf8(hex_code(c))) == Some(c),
{
    let code = hex_code(c);
    lemma_pair_reads(c.r);
    lemma_pair_reads(c.g);
    lemma_pair_reads(c.b);
    assert(is_ascii_chars(code)) by {
        assert forall|i: int| 0 <= i < code.len() implies '\0' <= #[trigger] code[i] <= '\u{7f}' by {
        }
    }
    is_ascii_chars_encode_utf8(code);
    let b = encode_utf8(code);
    assert(b.len() == 6);
    assert(b[0] == hex_pair(c.r)[0] as u8);
    assert(b[1] == hex_pair(c.r)[1] as u8);
    assert(b[2] == hex_pair(c.g)[0] as u8);
    assert(b[3] == hex_pair(c.g)[1] as u8);
    assert(b[4] == hex_pair(c.b)[0] as u8);
    assert(b[5] == hex_pair(c.b)[1] as u8);
}

/// `#RGB` is `#RRGGBB` (and `#RGBA` is `#RRGGBBAA`): a three- or four-digit
/// code denotes the colour of the code with each of its first three digits
/// doubled.
pub proof fn law_short_code_doubles(s: Seq<u8>)
    requires
        s.len() == 3 || s.len() == 4,
    ensures
        spec_parse_hex(s) == spec_parse_hex(seq![s[0], s[0], s[1], s[1], s[2], s[2]]),
{
}

/// The alpha pair of `RRGGBBAA` (and anything after the sixth digit) does
/// not change the colour.
pub proof fn law_alpha_ignored(s: Seq<u8>)
    requires
        s.len() >= 6,
    ensures
        spec_parse_hex(s) == spec_parse_hex(s.take(6)),
{
}

/// In files outside the CSS family, a `#` code of three or four digits is
/// never painted.
pub proof fn law_short_codes_need_css(
    line: Seq<char>,
    row: usize,
    g: Groups,
    vars: Map<Seq<char>, Rgb>,
)
    ensures
        mark_step(Pattern::HexMark, line, row, g, vars, false) matches Step::Emit(m) ==> {
            let digits = m.end - skip_hashes(encode_utf8(line), m.start as int, m.end as int);
            digits != 3 && digits != 4
        },
{
}

/// Codes of any other length (`#RRGGBB`, `#RRGGBBAA`) are treated alike in
/// every file type.
pub proof fn law_long_codes_in_any_file(
    line: Seq<char>,
    row: usize,
    g: Groups,
    vars: Map<Seq<char>, Rgb>,
)
    ensures
        mark_step(Pattern::HexMark, line, row, g, vars, false) matches Step::Emit(m) ==> mark_step(
            Pattern::HexMark,
            line,
            row,
            g,
            vars,
            true,
        ) == Step::Emit(m),
        mark_step(Pattern::HexMark, line, row, g, vars, true) matches Step::Emit(m) ==> {
            let digits = m.end - skip_hashes(encode_utf8(line), m.start as int, m.end as int);
            (digits != 3 && digits != 4) ==> mark_step(Pattern::HexMark, line, row, g, vars, false)
                == Step::Emit(m)
        },
{
}

pub open spec fn range_fits(r: (usize, usize), b: Seq<u8>) -> bool {
    is_char_range(b, r.0 as int, r.1 as int)
}

pub open spec fn component_fits(c: Component, b: Seq<u8>) -> bool {
    is_char_range(b, c.start as int, c.end as int)
}

pub open spec fn hue_fits(h: Hue, b: Seq<u8>) -> bool {
    is_char_range(b, h.start as int, h.end as int)
}

/// Every range a paint refers to lies between character boundaries of `b`.
pub open spec fn paint_fits(p: Paint, b: Seq<u8>) -> bool {
    match p {
        Paint::Solid(_) => true,
        Paint::CssRgb(r, g, bl) => component_fits(r, b) && component_fits(g, b) && component_fits(
            bl,
            b,
        ),
        Paint::CssHsl(h, s, l) => hue_fits(h, b) && component_fits(s, b) && component_fits(l, b),
        Paint::RustHsla(h, s, l) => range_fits(h, b) && range_fits(s, b) && range_fits(l, b),
    }
}

/// A mark and every range it refers to lie between character boundaries of
/// its line.
pub open spec fn mark_fits(m: Mark, line: Seq<char>) -> bool {
    let b = encode_utf8(line);
    &&& is_char_range(b, m.start as int, m.end as int)
    &&& paint_fits(m.paint, b)
}

/// CSS colour functions are painted only in CSS-family files, Rust `hsla`
/// only in Rust files.
pub open spec fn paint_allowed(p: Paint, kind: FileKind) -> bool {
    &&& (p is CssRgb || p is CssHsl) ==> kind.css
    &&& p is RustHsla ==> kind.rust
}

/// Every mark among `steps` is of line `row`, fits `line`, and is allowed in
/// files of kind `kind`.
pub open spec fn emits_fit(steps: Seq<Step<Mark>>, line: Seq<char>, row: usize, kind: FileKind) -> bool {
    forall|i: int|
        0 <= i < steps.len() ==> match #[trigger] steps[i] {
            Step::Emit(m) => m.row == row && mark_fits(m, line) && paint_allowed(m.paint, kind),
            _ => true,
        }
}

proof fn lemma_mark_step_fits(
    p: Pattern,
    line: Seq<char>,
    row: usize,
    g: Groups,
    vars: Map<Seq<char>, Rgb>,
    css: bool,
)
    ensures
        mark_step(p, line, row, g, vars, css) matches Step::Emit(m) ==> {
            &&& m.row == row
            &&& mark_fits(m, line)
            &&& (m.paint is CssRgb ==> p == Pattern::CssRgb)
            &&& (m.paint is CssHsl ==> p == Pattern::CssHsl)
            &&& (m.paint is RustHsla ==> p == Pattern::RustHsla)
        },
{
    broadcast use encode_utf8_valid_utf8;

    let b = encode_utf8(line);
    if groups_placed(g, b) {
        assert(group_placed(g[0], b));
        if 1 < g.len() {
            assert(group_placed(g[1], b));
            if let Some(r) = g[1] {
                lemma_component_fits(b, r.0 as int, r.1 as int);
                lemma_hue_fits(b, r.0 as int, r.1 as int);
            }
        }
        if 2 < g.len() {
            assert(group_placed(g[2], b));
            if let Some(r) = g[2] {
                lemma_component_fits(b, r.0 as int, r.1 as int);
            }
        }
        if 3 < g.len() {
            assert(group_placed(g[3], b));
            if let Some(r) = g[3] {
                lemma_component_fits(b, r.0 as int, r.1 as int);
            }
        }
    }
}

proof fn lemma_family_fits(
    p: Pattern,
    line: Seq<char>,
    row: usize,
    caps: Seq<Groups>,
    vars: Map<Seq<char>, Rgb>,
    kind: FileKind,
)
    requires
        (p == Pattern::CssRgb || p == Pattern::CssHsl) ==> kind.css,
        p == Pattern::RustHsla ==> kind.rust,
    ensures
        emits_fit(crate::marks::family_steps(p, line, row, caps, vars, kind.css), line, row, kind),
{
    let steps = crate::marks::family_steps(p, line, row, caps, vars, kind.css);
    assert forall|i: int| 0 <= i < steps.len() implies match #[trigger] steps[i] {
        Step::Emit(m) => m.row == row && mark_fits(m, line) && paint_allowed(m.paint, kind),
        _ => true,
    } by {
        lemma_mark_step_fits(p, line, row, caps[i], vars, kind.css);
    }
}

proof fn lemma_concat_fits(
    a: Seq<Step<Mark>>,
    c: Seq<Step<Mark>>,
    line: Seq<char>,
    row: usize,
    kind: FileKind,
)
    requires
        emits_fit(a, line, row, kind),
        emits_fit(c, line, row, kind),
    ensures
        emits_fit(a + c, line, row, kind),
{
    assert forall|i: int| 0 <= i < (a + c).len() implies match #[trigger] (a + c)[i] {
        Step::Emit(m) => m.row == row && mark_fits(m, line) && paint_allowed(m.paint, kind),
        _ => true,
    } by {
        if i < a.len() {
            assert((a + c)[i] == a[i]);
        } else {
            assert((a + c)[i] == c[i - a.len()]);
        }
    }
}

proof fn lemma_line_fits(
    line: Seq<char>,
    row: usize,
    kind: FileKind,
    vars: Map<Seq<char>, Rgb>,
    found: spec_fn(Pattern) -> Seq<Groups>,
)
    ensures
        emits_fit(line_steps(line, row, kind, vars, found), line, row, kind),
{
    let fs = |p: Pattern| crate::marks::family_steps(p, line, row, found(p), vars, kind.css);
    let empty = Seq::<Step<Mark>>::empty();
    assert(emits_fit(empty, line, row, kind));
    lemma_family_fits(Pattern::HexMark, line, row, found(Pattern::HexMark), vars, kind);
    let css_part = if kind.css {
        fs(Pattern::CssRgb) + fs(Pattern::CssHsl) + fs(Pattern::CssVar) + fs(Pattern::ColorWord)
    } else {
        empty
    };
    let rust_part = if kind.rust {
        fs(Pattern::RustRgb) + fs(Pattern::RustRgba) + fs(Pattern::RustHsla)
    } else {
        empty
    };
    if kind.css {
        lemma_family_fits(Pattern::CssRgb, line, row, found(Pattern::CssRgb), vars, kind);
        lemma_family_fits(Pattern::CssHsl, line, row, found(Pattern::CssHsl), vars, kind);
        lemma_family_fits(Pattern::CssVar, line, row, found(Pattern::CssVar), vars, kind);
        lemma_family_fits(Pattern::ColorWord, line, row, found(Pattern::ColorWord), vars, kind);
        lemma_concat_fits(fs(Pattern::CssRgb), fs(Pattern::CssHsl), line, row, kind);
        lemma_concat_fits(
            fs(Pattern::CssRgb) + fs(Pattern::CssHsl),
            fs(Pattern::CssVar),
            line,
            row,
            kind,
        );
        lemma_concat_fits(
            fs(Pattern::CssRgb) + fs(Pattern::CssHsl) + fs(Pattern::CssVar),
            fs(Pattern::ColorWord),
            line,
            row,
            kind,
        );
    }
    if kind.rust {
        lemma_family_fits(Pattern::RustRgb, line, row, found(Pattern::RustRgb), vars, kind);
        lemma_family_fits(Pattern::RustRgba, line, row, found(Pattern::RustRgba), vars, kind);
        lemma_family_fits(Pattern::RustHsla, line, row, found(Pattern::RustHsla), vars, kind);
        lemma_concat_fits(fs(Pattern::RustRgb), fs(Pattern::RustRgba), line, row, kind);
        lemma_concat_fits(
            fs(Pattern::RustRgb) + fs(Pattern::RustRgba),
            fs(Pattern::RustHsla),
            line,
            row,
            kind,
        );
    }
    lemma_concat_fits(fs(Pattern::HexMark), css_part, line, row, kind);
    lemma_concat_fits(fs(Pattern::HexMark) + css_part, rust_part, line, row, kind);
    assert(line_steps(line, row, kind, vars, found) == fs(Pattern::HexMark) + css_part + rust_part);
}

/// Every mark among `steps` is of one of the lines `lines`, fits that line,
/// and is allowed in files of kind `kind`.
pub open spec fn emits_fit_lines(steps: Seq<Step<Mark>>, lines: Seq<Seq<char>>, kind: FileKind) -> bool {
    forall|i: int|
        0 <= i < steps.len() ==> match #[trigger] steps[i] {
            Step::Emit(m) => m.row < lines.len() && mark_fits(m, lines[m.row as int])
                && paint_allowed(m.paint, kind),
            _ => true,
        }
}

proof fn lemma_buffer_fits(lines: Seq<Seq<char>>, kind: FileKind, vars: Map<Seq<char>, Rgb>)
    requires
        lines.len() <= usize::MAX,
    ensures
        emits_fit_lines(buffer_steps(lines, kind, vars), lines, kind),
    decreases lines.len(),
{
    if lines.len() > 0 {
        let n = lines.len() - 1;
        let front = buffer_steps(lines.drop_last(), kind, vars);
        let back = line_steps(lines.last(), n as usize, kind, vars, crate::scan::searched(lines.last()));
        lemma_buffer_fits(lines.drop_last(), kind, vars);
        lemma_line_fits(lines.last(), n as usize, kind, vars, crate::scan::searched(lines.last()));
        let all = buffer_steps(lines, kind, vars);
        assert(all == front + back);
        assert forall|i: int| 0 <= i < all.len() implies match #[trigger] all[i] {
            Step::Emit(m) => m.row < lines.len() && mark_fits(m, lines[m.row as int])
                && paint_allowed(m.paint, kind),
            _ => true,
        } by {
            if i < front.len() {
                assert(all[i] == front[i]);
                if let Step::Emit(m) = front[i] {
                    assert(lines.drop_last()[m.row as int] == lines[m.row as int]);
                }
            } else {
                assert(all[i] == back[i - front.len()]);
            }
        }
    }
}

/// Every mark a buffer scan finds lies in one of the buffer's lines, between
/// character boundaries of that line, and so does every range its paint refers
/// to; CSS colour functions are found only in CSS-family files and Rust
/// `hsla(..)` only in Rust files.
pub proof fn law_marks_fit_their_lines(
    lines: Seq<Seq<char>>,
    kind: FileKind,
    vars: Map<Seq<char>, Rgb>,
    m: Mark,
)
    requires
        lines.len() <= usize::MAX,
        run_steps(fresh::<Mark>(), buffer_steps(lines, kind, vars)).0.contains(m),
    ensures
        m.row < lines.len(),
        mark_fits(m, lines[m.row as int]),
        paint_allowed(m.paint, kind),
{
    let steps = buffer_steps(lines, kind, vars);
    lemma_run_items(fresh::<Mark>(), steps, m);
    lemma_buffer_fits(lines, kind, vars);
    let i = choose|i: int| 0 <= i < steps.len() && steps[i] == Step::Emit(m);
    assert(steps[i] == Step::Emit(m));
}

/// When custom properties are defined one after another, a name stands for
/// the colour of its last definition.
pub proof fn law_last_definition_wins(defs: Seq<(Seq<char>, Rgb)>, j: int)
    requires
        0 <= j < defs.len(),
        forall|i: int| j < i < defs.len() ==> #[trigger] defs[i].0 != defs[j].0,
    ensures
        insert_all(Map::empty(), defs).contains_key(defs[j].0),
        insert_all(Map::empty(), defs)[defs[j].0] == defs[j].1,
    decreases defs.len(),
{
    if j < defs.len() - 1 {
        let front = defs.drop_last();
        assert forall|i: int| j < i < front.len() implies #[trigger] front[i].0 != front[j].0 by {
            assert(front[i] == defs[i]);
        }
        law_last_definition_wins(front, j);
        assert(defs.last() == defs[defs.len() - 1]);
    }
}

/// A name that is never defined stands for no colour.
pub proof fn law_undefined_name_absent(defs: Seq<(Seq<char>, Rgb)>, name: Seq<char>)
    requires
        forall|i: int| 0 <= i < defs.len() ==> #[trigger] defs[i].0 != name,
    ensures
        !insert_all(Map::empty(), defs).contains_key(name),
    decreases defs.len(),
{
    if defs.len() > 0 {
        let front = defs.drop_last();
        assert forall|i: int| 0 <= i < front.len() implies #[trigger] front[i].0 != name by {
            assert(front[i] == defs[i]);
        }
        law_undefined_name_absent(front, name);
        assert(defs.last() == defs[defs.len() - 1]);
    }
}


/// The length of each colour keyword, and the letters that tell apart the
/// keywords of one length.
proof fn lemma_keyword_spellings()
    ensures
        "aliceblue"@.len() == 9,
        "aliceblue"@[0] == 'a',
        "antiquewhite"@.len() == 12,
        "antiquewhite"@[0] == 'a',
        "aqua"@.len() == 4,
        "aqua"@[0] == 'a',
        "aquamarine"@.len() == 10,
        "aquamarine"@[0] == 'a',
        "azure"@.len() == 5,
        "azure"@[0] == 'a',
        "beige"@.len() == 5,
        "beige"@[0] == 'b',
        "beige"@[1] == 'e',
        "bisque"@.len() == 6,
        "bisque"@[0] == 'b',
        "black"@.len() == 5,
        "black"@[0] == 'b',
        "black"@[1] == 'l',
        "blanchedalmond"@.len() == 14,
        "blanchedalmond"@[0] == 'b',
        "blue"@.len() == 4,
        "blue"@[0] == 'b',
        "blueviolet"@.len() == 10,
        "blueviolet"@[0] == 'b',
        "brown"@.len() == 5,
        "brown"@[0] == 'b',
        "brown"@[1] == 'r',
        "burlywood"@.len() == 9,
        "burlywood"@[0] == 'b',
        "cadetblue"@.len() == 9,
        "cadetblue"@[0] == 'c',
        "cadetblue"@[1] == 'a',
        "chartreuse"@.len() == 10,
        "chartreuse"@[0] == 'c',
        "chocolate"@.len() == 9,
        "chocolate"@[0] == 'c',
        "chocolate"@[1] == 'h',
        "coral"@.len() == 5,
        "coral"@[0] == 'c',
        "cornflowerblue"@.len() == 14,
        "cornflowerblue"@[0] == 'c',
        "cornsilk"@.len() == 8,
        "cornsilk"@[0] == 'c',
        "crimson"@.len() == 7,
        "crimson"@[0] == 'c',
        "cyan"@.len() == 4,
        "cyan"@[0] == 'c',
        "darkblue"@.len() == 8,
        "darkblue"@[0] == 'd',
        "darkblue"@[1] == 'a',
        "darkblue"@[4] == 'b',
        "darkcyan"@.len() == 8,
        "darkcyan"@[0] == 'd',
        "darkcyan"@[1] == 'a',
        "darkcyan"@[4] == 'c',
        "darkgoldenrod"@.len() == 13,
        "darkgoldenrod"@[0] == 'd',
        "darkgoldenrod"@[4] == 'g',
        "darkgray"@.len() == 8,
        "darkgray"@[0] == 'd',
        "darkgray"@[1] == 'a',
        "darkgray"@[4] == 'g',
        "darkgray"@[6] == 'a',
        "darkgreen"@.len() == 9,
        "darkgreen"@[0] == 'd',
        "darkgreen"@[4] == 'g',
        "darkgrey"@.len() == 8,
        "darkgrey"@[0] == 'd',
        "darkgrey"@[1] == 'a',
        "darkgrey"@[4] == 'g',
        "darkgrey"@[6] == 'e',
        "darkkhaki"@.len() == 9,
        "darkkhaki"@[0] == 'd',
        "darkkhaki"@[4] == 'k',
        "darkmagenta"@.len() == 11,
        "darkmagenta"@[0] == 'd',
        "darkmagenta"@[1] == 'a',
        "darkolivegreen"@.len() == 14,
        "darkolivegreen"@[0] == 'd',
        "darkorange"@.len() == 10,
        "darkorange"@[0] == 'd',
        "darkorange"@[1] == 'a',
        "darkorange"@[4] == 'o',
        "darkorange"@[6] == 'a',
        "darkorchid"@.len() == 10,
        "darkorchid"@[0] == 'd',
        "darkorchid"@[1] == 'a',
        "darkorchid"@[4] == 'o',
        "darkorchid"@[6] == 'c',
        "darkred"@.len() == 7,
        "darkred"@[0] == 'd',
        "darkred"@[1] == 'a',
        "darksalmon"@.len() == 10,
        "darksalmon"@[0] == 'd',
        "darksalmon"@[1] == 'a',
        "darksalmon"@[4] == 's',
        "darkseagreen"@.len() == 12,
        "darkseagreen"@[0] == 'd',
        "darkslateblue"@.len() == 13,
        "darkslateblue"@[0] == 'd',
        "darkslateblue"@[4] == 's',
        "darkslateblue"@[9] == 'b',
        "darkslategray"@.len() == 13,
        "darkslategray"@[0] == 'd',
        "darkslategray"@[4] == 's',
        "darkslategray"@[9] == 'g',
        "darkslategray"@[11] == 'a',
        "darkslategrey"@.len() == 13,
        "darkslategrey"@[0] == 'd',
        "darkslategrey"@[4] == 's',
        "darkslategrey"@[9] == 'g',
        "darkslategrey"@[11] == 'e',
        "darkturquoise"@.len() == 13,
        "darkturquoise"@[0] == 'd',
        "darkturquoise"@[4] == 't',
        "darkviolet"@.len() == 10,
        "darkviolet"@[0] == 'd',
        "darkviolet"@[1] == 'a',
        "darkviolet"@[4] == 'v',
        "deeppink"@.len() == 8,
        "deeppink"@[0] == 'd',
        "deeppink"@[1] == 'e',
        "deepskyblue"@.len() == 11,
        "deepskyblue"@[0] == 'd',
        "deepskyblue"@[1] == 'e',
        "dimgray"@.len() == 7,
        "dimgray"@[0] == 'd',
        "dimgray"@[1] == 'i',
        "dimgray"@[5] == 'a',
        "dimgrey"@.len() == 7,
        "dimgrey"@[0] == 'd',
        "dimgrey"@[1] == 'i',
        "dimgrey"@[5] == 'e',
        "dodgerblue"@.len() == 10,
        "dodgerblue"@[0] == 'd',
        "dodgerblue"@[1] == 'o',
        "firebrick"@.len() == 9,
        "firebrick"@[0] == 'f',
        "floralwhite"@.len() == 11,
        "floralwhite"@[0] == 'f',
        "floralwhite"@[1] == 'l',
        "forestgreen"@.len() == 11,
        "forestgreen"@[0] == 'f',
        "forestgreen"@[1] == 'o',
        "fuchsia"@.len() == 7,
        "fuchsia"@[0] == 'f',
        "gainsboro"@.len() == 9,
        "gainsboro"@[0] == 'g',
        "gainsboro"@[1] == 'a',
        "ghostwhite"@.len() == 10,
        "ghostwhite"@[0] == 'g',
        "gold"@.len() == 4,
        "gold"@[0] == 'g',
        "gold"@[1] == 'o',
        "goldenrod"@.len() == 9,
        "goldenrod"@[0] == 'g',
        "goldenrod"@[1] == 'o',
        "gray"@.len() == 4,
        "gray"@[0] == 'g',
        "gray"@[1] == 'r',
        "gray"@[2] == 'a',
        "green"@.len() == 5,
        "green"@[0] == 'g',
        "greenyellow"@.len() == 11,
        "greenyellow"@[0] == 'g',
        "grey"@.len() == 4,
        "grey"@[0] == 'g',
        "grey"@[1] == 'r',
        "grey"@[2] == 'e',
        "honeydew"@.len() == 8,
        "honeydew"@[0] == 'h',
        "hotpink"@.len() == 7,
        "hotpink"@[0] == 'h',
        "indianred"@.len() == 9,
        "indianred"@[0] == 'i',
        "indigo"@.len() == 6,
        "indigo"@[0] == 'i',
        "ivory"@.len() == 5,
        "ivory"@[0] == 'i',
        "khaki"@.len() == 5,
        "khaki"@[0] == 'k',
        "lavender"@.len() == 8,
        "lavender"@[0] == 'l',
        "lavenderblush"@.len() == 13,
        "lavenderblush"@[0] == 'l',
        "lavenderblush"@[1] == 'a',
        "lawngreen"@.len() == 9,
        "lawngreen"@[0] == 'l',
        "lawngreen"@[1] == 'a',
        "lemonchiffon"@.len() == 12,
        "lemonchiffon"@[0] == 'l',
        "lemonchiffon"@[1] == 'e',
        "lightblue"@.len() == 9,
        "lightblue"@[0] == 'l',
        "lightblue"@[1] == 'i',
        "lightblue"@[2] == 'g',
        "lightblue"@[5] == 'b',
        "lightcoral"@.len() == 10,
        "lightcoral"@[0] == 'l',
        "lightcoral"@[5] == 'c',
        "lightcyan"@.len() == 9,
        "lightcyan"@[0] == 'l',
        "lightcyan"@[1] == 'i',
        "lightcyan"@[2] == 'g',
        "lightcyan"@[5] == 'c',
        "lightgoldenrodyellow"@.len() == 20,
        "lightgray"@.len() == 9,
        "lightgray"@[0] == 'l',
        "lightgray"@[1] == 'i',
        "lightgray"@[2] == 'g',
        "lightgray"@[5] == 'g',
        "lightgray"@[7] == 'a',
        "lightgreen"@.len() == 10,
        "lightgreen"@[0] == 'l',
        "lightgreen"@[5] == 'g',
        "lightgrey"@.len() == 9,
        "lightgrey"@[0] == 'l',
        "lightgrey"@[1] == 'i',
        "lightgrey"@[2] == 'g',
        "lightgrey"@[5] == 'g',
        "lightgrey"@[7] == 'e',
        "lightpink"@.len() == 9,
        "lightpink"@[0] == 'l',
        "lightpink"@[1] == 'i',
        "lightpink"@[2] == 'g',
        "lightpink"@[5] == 'p',
        "lightsalmon"@.len() == 11,
        "lightsalmon"@[0] == 'l',
        "lightsalmon"@[5] == 's',
        "lightseagreen"@.len() == 13,
        "lightseagreen"@[0] == 'l',
        "lightseagreen"@[1] == 'i',
        "lightskyblue"@.len() == 12,
        "lightskyblue"@[0] == 'l',
        "lightskyblue"@[1] == 'i',
        "lightslategray"@.len() == 14,
        "lightslategray"@[0] == 'l',
        "lightslategray"@[6] == 'l',
        "lightslategray"@[12] == 'a',
        "lightslategrey"@.len() == 14,
        "lightslategrey"@[0] == 'l',
        "lightslategrey"@[6] == 'l',
        "lightslategrey"@[12] == 'e',
        "lightsteelblue"@.len() == 14,
        "lightsteelblue"@[0] == 'l',
        "lightsteelblue"@[6] == 't',
        "lightyellow"@.len() == 11,
        "lightyellow"@[0] == 'l',
        "lightyellow"@[5] == 'y',
        "lime"@.len() == 4,
        "lime"@[0] == 'l',
        "limegreen"@.len() == 9,
        "limegreen"@[0] == 'l',
        "limegreen"@[1] == 'i',
        "limegreen"@[2] == 'm',
        "linen"@.len() == 5,
        "linen"@[0] == 'l',
        "magenta"@.len() == 7,
        "magenta"@[0] == 'm',
        "maroon"@.len() == 6,
        "maroon"@[0] == 'm',
        "mediumaquamarine"@.len() == 16,
        "mediumblue"@.len() == 10,
        "mediumblue"@[0] == 'm',
        "mediumorchid"@.len() == 12,
        "mediumorchid"@[0] == 'm',
        "mediumorchid"@[1] == 'e',
        "mediumorchid"@[6] == 'o',
        "mediumpurple"@.len() == 12,
        "mediumpurple"@[0] == 'm',
        "mediumpurple"@[1] == 'e',
        "mediumpurple"@[6] == 'p',
        "mediumseagreen"@.len() == 14,
        "mediumseagreen"@[0] == 'm',
        "mediumslateblue"@.len() == 15,
        "mediumslateblue"@[6] == 's',
        "mediumspringgreen"@.len() == 17,
        "mediumturquoise"@.len() == 15,
        "mediumturquoise"@[6] == 't',
        "mediumvioletred"@.len() == 15,
        "mediumvioletred"@[6] == 'v',
        "midnightblue"@.len() == 12,
        "midnightblue"@[0] == 'm',
        "midnightblue"@[1] == 'i',
        "mintcream"@.len() == 9,
        "mintcream"@[0] == 'm',
        "mintcream"@[2] == 'n',
        "mistyrose"@.len() == 9,
        "mistyrose"@[0] == 'm',
        "mistyrose"@[2] == 's',
        "moccasin"@.len() == 8,
        "moccasin"@[0] == 'm',
        "navajowhite"@.len() == 11,
        "navajowhite"@[0] == 'n',
        "navy"@.len() == 4,
        "navy"@[0] == 'n',
        "oldlace"@.len() == 7,
        "oldlace"@[0] == 'o',
        "olive"@.len() == 5,
        "olive"@[0] == 'o',
        "olivedrab"@.len() == 9,
        "olivedrab"@[0] == 'o',
        "olivedrab"@[1] == 'l',
        "orange"@.len() == 6,
        "orange"@[0] == 'o',
        "orange"@[2] == 'a',
        "orangered"@.len() == 9,
        "orangered"@[0] == 'o',
        "orangered"@[1] == 'r',
        "orchid"@.len() == 6,
        "orchid"@[0] == 'o',
        "orchid"@[2] == 'c',
        "palegoldenrod"@.len() == 13,
        "palegoldenrod"@[0] == 'p',
        "palegoldenrod"@[4] == 'g',
        "palegreen"@.len() == 9,
        "palegreen"@[0] == 'p',
        "palegreen"@[1] == 'a',
        "paleturquoise"@.len() == 13,
        "paleturquoise"@[0] == 'p',
        "paleturquoise"@[4] == 't',
        "palevioletred"@.len() == 13,
        "palevioletred"@[0] == 'p',
        "palevioletred"@[4] == 'v',
        "papayawhip"@.len() == 10,
        "papayawhip"@[0] == 'p',
        "papayawhip"@[1] == 'a',
        "peachpuff"@.len() == 9,
        "peachpuff"@[0] == 'p',
        "peachpuff"@[1] == 'e',
        "peru"@.len() == 4,
        "peru"@[0] == 'p',
        "peru"@[1] == 'e',
        "pink"@.len() == 4,
        "pink"@[0] == 'p',
        "pink"@[1] == 'i',
        "plum"@.len() == 4,
        "plum"@[0] == 'p',
        "plum"@[1] == 'l',
        "powderblue"@.len() == 10,
        "powderblue"@[0] == 'p',
        "powderblue"@[1] == 'o',
        "purple"@.len() == 6,
        "purple"@[0] == 'p',
        "rebeccapurple"@.len() == 13,
        "rebeccapurple"@[0] == 'r',
        "red"@.len() == 3,
        "red"@[0] == 'r',
        "rosybrown"@.len() == 9,
        "rosybrown"@[0] == 'r',
        "rosybrown"@[2] == 's',
        "royalblue"@.len() == 9,
        "royalblue"@[0] == 'r',
        "royalblue"@[2] == 'y',
        "saddlebrown"@.len() == 11,
        "saddlebrown"@[0] == 's',
        "saddlebrown"@[1] == 'a',
        "salmon"@.len() == 6,
        "salmon"@[0] == 's',
        "salmon"@[1] == 'a',
        "sandybrown"@.len() == 10,
        "sandybrown"@[0] == 's',
        "seagreen"@.len() == 8,
        "seagreen"@[0] == 's',
        "seagreen"@[3] == 'g',
        "seashell"@.len() == 8,
        "seashell"@[0] == 's',
        "seashell"@[3] == 's',
        "sienna"@.len() == 6,
        "sienna"@[0] == 's',
        "sienna"@[1] == 'i',
        "sienna"@[2] == 'e',
        "silver"@.len() == 6,
        "silver"@[0] == 's',
        "silver"@[1] == 'i',
        "silver"@[2] == 'l',
        "skyblue"@.len() == 7,
        "skyblue"@[0] == 's',
        "slateblue"@.len() == 9,
        "slateblue"@[0] == 's',
        "slateblue"@[1] == 'l',
        "slateblue"@[5] == 'b',
        "slategray"@.len() == 9,
        "slategray"@[0] == 's',
        "slategray"@[1] == 'l',
        "slategray"@[5] == 'g',
        "slategray"@[7] == 'a',
        "slategrey"@.len() == 9,
        "slategrey"@[0] == 's',
        "slategrey"@[1] == 'l',
        "slategrey"@[5] == 'g',
        "slategrey"@[7] == 'e',
        "snow"@.len() == 4,
        "snow"@[0] == 's',
        "springgreen"@.len() == 11,
        "springgreen"@[0] == 's',
        "springgreen"@[1] == 'p',
        "steelblue"@.len() == 9,
        "steelblue"@[0] == 's',
        "steelblue"@[1] == 't',
        "tan"@.len() == 3,
        "tan"@[0] == 't',
        "teal"@.len() == 4,
        "teal"@[0] == 't',
        "thistle"@.len() == 7,
        "thistle"@[0] == 't',
        "tomato"@.len() == 6,
        "tomato"@[0] == 't',
        "turquoise"@.len() == 9,
        "turquoise"@[0] == 't',
        "violet"@.len() == 6,
        "violet"@[0] == 'v',
        "wheat"@.len() == 5,
        "wheat"@[0] == 'w',
        "wheat"@[2] == 'e',
        "white"@.len() == 5,
        "white"@[0] == 'w',
        "white"@[2] == 'i',
        "whitesmoke"@.len() == 10,
        "whitesmoke"@[0] == 'w',
        "yellow"@.len() == 6,
        "yellow"@[0] == 'y',
        "yellowgreen"@.len() == 11,
        "yellowgreen"@[0] == 'y',
{
    reveal_strlit("aliceblue");
    reveal_strlit("antiquewhite");
    reveal_strlit("aqua");
    reveal_strlit("aquamarine");
    reveal_strlit("azure");
    reveal_strlit("beige");
    reveal_strlit("bisque");
    reveal_strlit("black");
    reveal_strlit("blanchedalmond");
    reveal_strlit("blue");
    reveal_strlit("blueviolet");
    reveal_strlit("brown");
    reveal_strlit("burlywood");
    reveal_strlit("cadetblue");
    reveal_strlit("chartreuse");
    reveal_strlit("chocolate");
    reveal_strlit("coral");
    reveal_strlit("cornflowerblue");
    reveal_strlit("cornsilk");
    reveal_strlit("crimson");
    reveal_strlit("cyan");
    reveal_strlit("darkblue");
    reveal_strlit("darkcyan");
    reveal_strlit("darkgoldenrod");
    reveal_strlit("darkgray");
    reveal_strlit("darkgreen");
    reveal_strlit("darkgrey");
    reveal_strlit("darkkhaki");
    reveal_strlit("darkmagenta");
    reveal_strlit("darkolivegreen");
    reveal_strlit("darkorange");
    reveal_strlit("darkorchid");
    reveal_strlit("darkred");
    reveal_strlit("darksalmon");
    reveal_strlit("darkseagreen");
    reveal_strlit("darkslateblue");
    reveal_strlit("darkslategray");
    reveal_strlit("darkslategrey");
    reveal_strlit("darkturquoise");
    reveal_strlit("darkviolet");
    reveal_strlit("deeppink");
    reveal_strlit("deepskyblue");
    reveal_strlit("dimgray");
    reveal_strlit("dimgrey");
    reveal_strlit("dodgerblue");
    reveal_strlit("firebrick");
    reveal_strlit("floralwhite");
    reveal_strlit("forestgreen");
    reveal_strlit("fuchsia");
    reveal_strlit("gainsboro");
    reveal_strlit("ghostwhite");
    reveal_strlit("gold");
    reveal_strlit("goldenrod");
    reveal_strlit("gray");
    reveal_strlit("green");
    reveal_strlit("greenyellow");
    reveal_strlit("grey");
    reveal_strlit("honeydew");
    reveal_strlit("hotpink");
    reveal_strlit("indianred");
    reveal_strlit("indigo");
    reveal_strlit("ivory");
    reveal_strlit("khaki");
    reveal_strlit("lavender");
    reveal_strlit("lavenderblush");
    reveal_strlit("lawngreen");
    reveal_strlit("lemonchiffon");
    reveal_strlit("lightblue");
    reveal_strlit("lightcoral");
    reveal_strlit("lightcyan");
    reveal_strlit("lightgoldenrodyellow");
    reveal_strlit("lightgray");
    reveal_strlit("lightgreen");
    reveal_strlit("lightgrey");
    reveal_strlit("lightpink");
    reveal_strlit("lightsalmon");
    reveal_strlit("lightseagreen");
    reveal_strlit("lightskyblue");
    reveal_strlit("lightslategray");
    reveal_strlit("lightslategrey");
    reveal_strlit("lightsteelblue");
    reveal_strlit("lightyellow");
    reveal_strlit("lime");
    reveal_strlit("limegreen");
    reveal_strlit("linen");
    reveal_strlit("magenta");
    reveal_strlit("maroon");
    reveal_strlit("mediumaquamarine");
    reveal_strlit("mediumblue");
    reveal_strlit("mediumorchid");
    reveal_strlit("mediumpurple");
    reveal_strlit("mediumseagreen");
    reveal_strlit("mediumslateblue");
    reveal_strlit("mediumspringgreen");
    reveal_strlit("mediumturquoise");
    reveal_strlit("mediumvioletred");
    reveal_strlit("midnightblue");
    reveal_strlit("mintcream");
    reveal_strlit("mistyrose");
    reveal_strlit("moccasin");
    reveal_strlit("navajowhite");
    reveal_strlit("navy");
    reveal_strlit("oldlace");
    reveal_strlit("olive");
    reveal_strlit("olivedrab");
    reveal_strlit("orange");
    reveal_strlit("orangered");
    reveal_strlit("orchid");
    reveal_strlit("palegoldenrod");
    reveal_strlit("palegreen");
    reveal_strlit("paleturquoise");
    reveal_strlit("palevioletred");
    reveal_strlit("papayawhip");
    reveal_strlit("peachpuff");
    reveal_strlit("peru");
    reveal_strlit("pink");
    reveal_strlit("plum");
    reveal_strlit("powderblue");
    reveal_strlit("purple");
    reveal_strlit("rebeccapurple");
    reveal_strlit("red");
    reveal_strlit("rosybrown");
    reveal_strlit("royalblue");
    reveal_strlit("saddlebrown");
    reveal_strlit("salmon");
    reveal_strlit("sandybrown");
    reveal_strlit("seagreen");
    reveal_strlit("seashell");
    reveal_strlit("sienna");
    reveal_strlit("silver");
    reveal_strlit("skyblue");
    reveal_strlit("slateblue");
    reveal_strlit("slategray");
    reveal_strlit("slategrey");
    reveal_strlit("snow");
    reveal_strlit("springgreen");
    reveal_strlit("steelblue");
    reveal_strlit("tan");
    reveal_strlit("teal");
    reveal_strlit("thistle");
    reveal_strlit("tomato");
    reveal_strlit("turquoise");
    reveal_strlit("violet");
    reveal_strlit("wheat");
    reveal_strlit("white");
    reveal_strlit("whitesmoke");
    reveal_strlit("yellow");
    reveal_strlit("yellowgreen");
}

/// Every colour keyword of CSS Color Module Level 4 (section 6.1, "Named
/// Colors") denotes the colour that the module gives it.
#[verifier::rlimit(50)]
pub proof fn law_css_keyword_table()
    ensures
        named_color("aliceblue"@) == Some(Rgb { r: 240, g: 248, b: 255 }),
        named_color("antiquewhite"@) == Some(Rgb { r: 250, g: 235, b: 215 }),
        named_color("aqua"@) == Some(Rgb { r: 0, g: 255, b: 255 }),
        named_color("aquamarine"@) == Some(Rgb { r: 127, g: 255, b: 212 }),
        named_color("azure"@) == Some(Rgb { r: 240, g: 255, b: 255 }),
        named_color("beige"@) == Some(Rgb { r: 245, g: 245, b: 220 }),
        named_color("bisque"@) == Some(Rgb { r: 255, g: 228, b: 196 }),
        named_color("black"@) == Some(Rgb { r: 0, g: 0, b: 0 }),
        named_color("blanchedalmond"@) == Some(Rgb { r: 255, g: 235, b: 205 }),
        named_color("blue"@) == Some(Rgb { r: 0, g: 0, b: 255 }),
        named_color("blueviolet"@) == Some(Rgb { r: 138, g: 43, b: 226 }),
        named_color("brown"@) == Some(Rgb { r: 165, g: 42, b: 42 }),
        named_color("burlywood"@) == Some(Rgb { r: 222, g: 184, b: 135 }),
        named_color("cadetblue"@) == Some(Rgb { r: 95, g: 158, b: 160 }),
        named_color("chartreuse"@) == Some(Rgb { r: 127, g: 255, b: 0 }),
        named_color("chocolate"@) == Some(Rgb { r: 210, g: 105, b: 30 }),
        named_color("coral"@) == Some(Rgb { r: 255, g: 127, b: 80 }),
        named_color("cornflowerblue"@) == Some(Rgb { r: 100, g: 149, b: 237 }),
        named_color("cornsilk"@) == Some(Rgb { r: 255, g: 248, b: 220 }),
        named_color("crimson"@) == Some(Rgb { r: 220, g: 20, b: 60 }),
        named_color("cyan"@) == Some(Rgb { r: 0, g: 255, b: 255 }),
        named_color("darkblue"@) == Some(Rgb { r: 0, g: 0, b: 139 }),
        named_color("darkcyan"@) == Some(Rgb { r: 0, g: 139, b: 139 }),
        named_color("darkgoldenrod"@) == Some(Rgb { r: 184, g: 134, b: 11 }),
        named_color("darkgray"@) == Some(Rgb { r: 169, g: 169, b: 169 }),
        named_color("darkgreen"@) == Some(Rgb { r: 0, g: 100, b: 0 }),
        named_color("darkgrey"@) == Some(Rgb { r: 169, g: 169, b: 169 }),
        named_color("darkkhaki"@) == Some(Rgb { r: 189, g: 183, b: 107 }),
        named_color("darkmagenta"@) == Some(Rgb { r: 139, g: 0, b: 139 }),
        named_color("darkolivegreen"@) == Some(Rgb { r: 85, g: 107, b: 47 }),
        named_color("darkorange"@) == Some(Rgb { r: 255, g: 140, b: 0 }),
        named_color("darkorchid"@) == Some(Rgb { r: 153, g: 50, b: 204 }),
        named_color("darkred"@) == Some(Rgb { r: 139, g: 0, b: 0 }),
        named_color("darksalmon"@) == Some(Rgb { r: 233, g: 150, b: 122 }),
        named_color("darkseagreen"@) == Some(Rgb { r: 143, g: 188, b: 143 }),
        named_color("darkslateblue"@) == Some(Rgb { r: 72, g: 61, b: 139 }),
        named_color("darkslategray"@) == Some(Rgb { r: 47, g: 79, b: 79 }),
        named_color("darkslategrey"@) == Some(Rgb { r: 47, g: 79, b: 79 }),
        named_color("darkturquoise"@) == Some(Rgb { r: 0, g: 206, b: 209 }),
        named_color("darkviolet"@) == Some(Rgb { r: 148, g: 0, b: 211 }),
        named_color("deeppink"@) == Some(Rgb { r: 255, g: 20, b: 147 }),
        named_color("deepskyblue"@) == Some(Rgb { r: 0, g: 191, b: 255 }),
        named_color("dimgray"@) == Some(Rgb { r: 105, g: 105, b: 105 }),
        named_color("dimgrey"@) == Some(Rgb { r: 105, g: 105, b: 105 }),
        named_color("dodgerblue"@) == Some(Rgb { r: 30, g: 144, b: 255 }),
        named_color("firebrick"@) == Some(Rgb { r: 178, g: 34, b: 34 }),
        named_color("floralwhite"@) == Some(Rgb { r: 255, g: 250, b: 240 }),
        named_color("forestgreen"@) == Some(Rgb { r: 34, g: 139, b: 34 }),
        named_color("fuchsia"@) == Some(Rgb { r: 255, g: 0, b: 255 }),
        named_color("gainsboro"@) == Some(Rgb { r: 220, g: 220, b: 220 }),
        named_color("ghostwhite"@) == Some(Rgb { r: 248, g: 248, b: 255 }),
        named_color("gold"@) == Some(Rgb { r: 255, g: 215, b: 0 }),
        named_color("goldenrod"@) == Some(Rgb { r: 218, g: 165, b: 32 }),
        named_color("gray"@) == Some(Rgb { r: 128, g: 128, b: 128 }),
        named_color("green"@) == Some(Rgb { r: 0, g: 128, b: 0 }),
        named_color("greenyellow"@) == Some(Rgb { r: 173, g: 255, b: 47 }),
        named_color("grey"@) == Some(Rgb { r: 128, g: 128, b: 128 }),
        named_color("honeydew"@) == Some(Rgb { r: 240, g: 255, b: 240 }),
        named_color("hotpink"@) == Some(Rgb { r: 255, g: 105, b: 180 }),
        named_color("indianred"@) == Some(Rgb { r: 205, g: 92, b: 92 }),
        named_color("indigo"@) == Some(Rgb { r: 75, g: 0, b: 130 }),
        named_color("ivory"@) == Some(Rgb { r: 255, g: 255, b: 240 }),
        named_color("khaki"@) == Some(Rgb { r: 240, g: 230, b: 140 }),
        named_color("lavender"@) == Some(Rgb { r: 230, g: 230, b: 250 }),
        named_color("lavenderblush"@) == Some(Rgb { r: 255, g: 240, b: 245 }),
        named_color("lawngreen"@) == Some(Rgb { r: 124, g: 252, b: 0 }),
        named_color("lemonchiffon"@) == Some(Rgb { r: 255, g: 250, b: 205 }),
        named_color("lightblue"@) == Some(Rgb { r: 173, g: 216, b: 230 }),
        named_color("lightcoral"@) == Some(Rgb { r: 240, g: 128, b: 128 }),
        named_color("lightcyan"@) == Some(Rgb { r: 224, g: 255, b: 255 }),
        named_color("lightgoldenrodyellow"@) == Some(Rgb { r: 250, g: 250, b: 210 }),
        named_color("lightgray"@) == Some(Rgb { r: 211, g: 211, b: 211 }),
        named_color("lightgreen"@) == Some(Rgb { r: 144, g: 238, b: 144 }),
        named_color("lightgrey"@) == Some(Rgb { r: 211, g: 211, b: 211 }),
        named_color("lightpink"@) == Some(Rgb { r: 255, g: 182, b: 193 }),
        named_color("lightsalmon"@) == Some(Rgb { r: 255, g: 160, b: 122 }),
        named_color("lightseagreen"@) == Some(Rgb { r: 32, g: 178, b: 170 }),
        named_color("lightskyblue"@) == Some(Rgb { r: 135, g: 206, b: 250 }),
        named_color("lightslategray"@) == Some(Rgb { r: 119, g: 136, b: 153 }),
        named_color("lightslategrey"@) == Some(Rgb { r: 119, g: 136, b: 153 }),
        named_color("lightsteelblue"@) == Some(Rgb { r: 176, g: 196, b: 222 }),
        named_color("lightyellow"@) == Some(Rgb { r: 255, g: 255, b: 224 }),
        named_color("lime"@) == Some(Rgb { r: 0, g: 255, b: 0 }),
        named_color("limegreen"@) == Some(Rgb { r: 50, g: 205, b: 50 }),
        named_color("linen"@) == Some(Rgb { r: 250, g: 240, b: 230 }),
        named_color("magenta"@) == Some(Rgb { r: 255, g: 0, b: 255 }),
        named_color("maroon"@) == Some(Rgb { r: 128, g: 0, b: 0 }),
        named_color("mediumaquamarine"@) == Some(Rgb { r: 102, g: 205, b: 170 }),
        named_color("mediumblue"@) == Some(Rgb { r: 0, g: 0, b: 205 }),
        named_color("mediumorchid"@) == Some(Rgb { r: 186, g: 85, b: 211 }),
        named_color("mediumpurple"@) == Some(Rgb { r: 147, g: 112, b: 219 }),
        named_color("mediumseagreen"@) == Some(Rgb { r: 60, g: 179, b: 113 }),
        named_color("mediumslateblue"@) == Some(Rgb { r: 123, g: 104, b: 238 }),
        named_color("mediumspringgreen"@) == Some(Rgb { r: 0, g: 250, b: 154 }),
        named_color("mediumturquoise"@) == Some(Rgb { r: 72, g: 209, b: 204 }),
        named_color("mediumvioletred"@) == Some(Rgb { r: 199, g: 21, b: 133 }),
        named_color("midnightblue"@) == Some(Rgb { r: 25, g: 25, b: 112 }),
        named_color("mintcream"@) == Some(Rgb { r: 245, g: 255, b: 250 }),
        named_color("mistyrose"@) == Some(Rgb { r: 255, g: 228, b: 225 }),
        named_color("moccasin"@) == Some(Rgb { r: 255, g: 228, b: 181 }),
        named_color("navajowhite"@) == Some(Rgb { r: 255, g: 222, b: 173 }),
        named_color("navy"@) == Some(Rgb { r: 0, g: 0, b: 128 }),
        named_color("oldlace"@) == Some(Rgb { r: 253, g: 245, b: 230 }),
        named_color("olive"@) == Some(Rgb { r: 128, g: 128, b: 0 }),
        named_color("olivedrab"@) == Some(Rgb { r: 107, g: 142, b: 35 }),
        named_color("orange"@) == Some(Rgb { r: 255, g: 165, b: 0 }),
        named_color("orangered"@) == Some(Rgb { r: 255, g: 69, b: 0 }),
        named_color("orchid"@) == Some(Rgb { r: 218, g: 112, b: 214 }),
        named_color("palegoldenrod"@) == Some(Rgb { r: 238, g: 232, b: 170 }),
        named_color("palegreen"@) == Some(Rgb { r: 152, g: 251, b: 152 }),
        named_color("paleturquoise"@) == Some(Rgb { r: 175, g: 238, b: 238 }),
        named_color("palevioletred"@) == Some(Rgb { r: 219, g: 112, b: 147 }),
        named_color("papayawhip"@) == Some(Rgb { r: 255, g: 239, b: 213 }),
        named_color("peachpuff"@) == Some(Rgb { r: 255, g: 218, b: 185 }),
        named_color("peru"@) == Some(Rgb { r: 205, g: 133, b: 63 }),
        named_color("pink"@) == Some(Rgb { r: 255, g: 192, b: 203 }),
        named_color("plum"@) == Some(Rgb { r: 221, g: 160, b: 221 }),
        named_color("powderblue"@) == Some(Rgb { r: 176, g: 224, b: 230 }),
        named_color("purple"@) == Some(Rgb { r: 128, g: 0, b: 128 }),
        named_color("rebeccapurple"@) == Some(Rgb { r: 102, g: 51, b: 153 }),
        named_color("red"@) == Some(Rgb { r: 255, g: 0, b: 0 }),
        named_color("rosybrown"@) == Some(Rgb { r: 188, g: 143, b: 143 }),
        named_color("royalblue"@) == Some(Rgb { r: 65, g: 105, b: 225 }),
        named_color("saddlebrown"@) == Some(Rgb { r: 139, g: 69, b: 19 }),
        named_color("salmon"@) == Some(Rgb { r: 250, g: 128, b: 114 }),
        named_color("sandybrown"@) == Some(Rgb { r: 244, g: 164, b: 96 }),
        named_color("seagreen"@) == Some(Rgb { r: 46, g: 139, b: 87 }),
        named_color("seashell"@) == Some(Rgb { r: 255, g: 245, b: 238 }),
        named_color("sienna"@) == Some(Rgb { r: 160, g: 82, b: 45 }),
        named_color("silver"@) == Some(Rgb { r: 192, g: 192, b: 192 }),
        named_color("skyblue"@) == Some(Rgb { r: 135, g: 206, b: 235 }),
        named_color("slateblue"@) == Some(Rgb { r: 106, g: 90, b: 205 }),
        named_color("slategray"@) == Some(Rgb { r: 112, g: 128, b: 144 }),
        named_color("slategrey"@) == Some(Rgb { r: 112, g: 128, b: 144 }),
        named_color("snow"@) == Some(Rgb { r: 255, g: 250, b: 250 }),
        named_color("springgreen"@) == Some(Rgb { r: 0, g: 255, b: 127 }),
        named_color("steelblue"@) == Some(Rgb { r: 70, g: 130, b: 180 }),
        named_color("tan"@) == Some(Rgb { r: 210, g: 180, b: 140 }),
        named_color("teal"@) == Some(Rgb { r: 0, g: 128, b: 128 }),
        named_color("thistle"@) == Some(Rgb { r: 216, g: 191, b: 216 }),
        named_color("tomato"@) == Some(Rgb { r: 255, g: 99, b: 71 }),
        named_color("turquoise"@) == Some(Rgb { r: 64, g: 224, b: 208 }),
        named_color("violet"@) == Some(Rgb { r: 238, g: 130, b: 238 }),
        named_color("wheat"@) == Some(Rgb { r: 245, g: 222, b: 179 }),
        named_color("white"@) == Some(Rgb { r: 255, g: 255, b: 255 }),
        named_color("whitesmoke"@) == Some(Rgb { r: 245, g: 245, b: 245 }),
        named_color("yellow"@) == Some(Rgb { r: 255, g: 255, b: 0 }),
        named_color("yellowgreen"@) == Some(Rgb { r: 154, g: 205, b: 50 }),
{
    lemma_keyword_spellings();
}


/// Exactly these file types are of the CSS family: css, scss, sass, less,
/// postcss, stylus, html, javascript, typescript, javascriptreact,
/// typescriptreact, vue and svelte.
pub proof fn law_css_family_filetypes(ft: Seq<char>)
    ensures
        spec_filetype_kind(ft).css <==> {
            ||| ft == "css"@
            ||| ft == "scss"@
            ||| ft == "sass"@
            ||| ft == "less"@
            ||| ft == "postcss"@
            ||| ft == "stylus"@
            ||| ft == "html"@
            ||| ft == "javascript"@
            ||| ft == "typescript"@
            ||| ft == "javascriptreact"@
            ||| ft == "typescriptreact"@
            ||| ft == "vue"@
            ||| ft == "svelte"@
        },
{
}

/// The ASCII lower-case form of the byte `c`.
pub open spec fn lower_byte(c: u8) -> u8 {
    if 0x41 <= c <= 0x5a {
        (c + 0x20) as u8
    } else {
        c
    }
}

proof fn lemma_pair_any_case(a: u8, b: u8)
    ensures
        radix16_pair(lower_byte(a), lower_byte(b)) == radix16_pair(a, b),
{
}

/// Upper- and lower-case hex digits read alike: a digit string denotes the
/// same colour (or none) as its ASCII lower-case form.
pub proof fn law_hex_digits_any_case(s: Seq<u8>)
    ensures
        spec_parse_hex(s) == spec_parse_hex(s.map_values(|c: u8| lower_byte(c))),
{
    let t = s.map_values(|c: u8| lower_byte(c));
    if s.len() >= 6 {
        lemma_pair_any_case(s[0], s[1]);
        lemma_pair_any_case(s[2], s[3]);
        lemma_pair_any_case(s[4], s[5]);
    } else if s.len() == 3 || s.len() == 4 {
        lemma_pair_any_case(s[0], s[0]);
        lemma_pair_any_case(s[1], s[1]);
        lemma_pair_any_case(s[2], s[2]);
    }
}

/// A `var(--name)` reference is painted, over the whole reference, with the
/// colour of the custom property it names, the name taken as written, when
/// that property is defined; it is not painted when it is not.
pub proof fn law_var_reference_painted(
    line: Seq<char>,
    row: usize,
    g: Groups,
    vars: Map<Seq<char>, Rgb>,
    css: bool,
)
    requires
        groups_placed(g, encode_utf8(line)),
        g.len() > 1,
        g[1] is Some,
    ensures
        ({
            let whole = g[0]->0;
            let n = g[1]->0;
            let name = decoded(encode_utf8(line), n.0 as int, n.1 as int);
            &&& vars.contains_key(name) ==> mark_step(Pattern::CssVar, line, row, g, vars, css)
                == Step::Emit(
                Mark { row, start: whole.0, end: whole.1, paint: Paint::Solid(vars[name]) },
            )
            &&& !vars.contains_key(name) ==> mark_step(Pattern::CssVar, line, row, g, vars, css)
                == Step::<Mark>::Skip
        }),
{
}

/// `#` codes are looked for in every file type: whatever the kind of file,
/// the steps of a line begin with those of its `#` code matches, read with
/// the file's CSS flag alone.
pub proof fn law_hex_codes_in_every_file(
    line: Seq<char>,
    row: usize,
    kind: FileKind,
    vars: Map<Seq<char>, Rgb>,
    found: spec_fn(Pattern) -> Seq<Groups>,
)
    ensures
        family_steps(Pattern::HexMark, line, row, found(Pattern::HexMark), vars, kind.css).is_prefix_of(
            line_steps(line, row, kind, vars, found),
        ),
{
    let hex = family_steps(Pattern::HexMark, line, row, found(Pattern::HexMark), vars, kind.css);
    let all = line_steps(line, row, kind, vars, found);
    assert(hex =~= all.subrange(0, hex.len() as int));
}


/// The UTF-8 encoding of a character is the character itself when it is
/// ASCII, and begins with a byte of at least `0xC0` otherwise.
proof fn lemma_encode_first_byte(c: char)
    ensures
        (c as u32) <= 0x7f ==> encode_scalar(c as u32) == seq![(c as u32) as u8],
        (c as u32) > 0x7f ==> encode_scalar(c as u32).len() > 0 && encode_scalar(c as u32)[0]
            >= 0xc0,
{
    let v = c as u32;
    char_is_scalar(c);
    if v <= 0x7f {
        assert(v & 0x7f == v) by (bit_vector)
            requires
                v <= 0x7f,
        ;
    } else if v <= 0x7ff {
        assert(0xC0u8 | ((v >> 6) & 0x1F) as u8 >= 0xc0) by (bit_vector);
    } else if has_width_3_encoding(v) {
        assert(0xE0u8 | ((v >> 12) & 0x0F) as u8 >= 0xc0) by (bit_vector);
    } else {
        assert(0xF0u8 | ((v >> 18) & 0x7) as u8 >= 0xc0) by (bit_vector);
    }
}

/// A text's UTF-8 bytes begin with the bytes of the ASCII text `p` exactly
/// when the text begins with `p`.
proof fn lemma_ascii_prefix(s: Seq<char>, p: Seq<char>)
    requires
        forall|i: int| 0 <= i < p.len() ==> (p[i] as u32) <= 0x7f,
    ensures
        (encode_utf8(s).len() >= p.len() && forall|i: int|
            0 <= i < p.len() ==> #[trigger] encode_utf8(s)[i] == (p[i] as u32) as u8) <==> (s.len()
            >= p.len() && s.take(p.len() as int) == p),
    decreases p.len(),
{
    if p.len() == 0 {
        assert(s.take(0) =~= p);
    } else if s.len() == 0 {
    } else {
        let rest = s.drop_first();
        let q = p.drop_first();
        assert forall|i: int| 0 <= i < q.len() implies (q[i] as u32) <= 0x7f by {
            assert(q[i] == p[i + 1]);
        }
        lemma_ascii_prefix(rest, q);
        lemma_encode_first_byte(s[0]);
        let e = encode_utf8(s);
        let er = encode_utf8(rest);
        assert(e == encode_scalar(s[0] as u32) + er);
        if s[0] == p[0] {
            assert(e =~= seq![(p[0] as u32) as u8] + er);
            if e.len() >= p.len() && forall|i: int|
                0 <= i < p.len() ==> #[trigger] e[i] == (p[i] as u32) as u8 {
                assert forall|i: int| 0 <= i < q.len() implies #[trigger] er[i] == (q[i] as u32) as u8 by {
                    assert(e[i + 1] == er[i]);
                    assert(p[i + 1] == q[i]);
                }
            }
            if er.len() >= q.len() && forall|i: int|
                0 <= i < q.len() ==> #[trigger] er[i] == (q[i] as u32) as u8 {
                assert forall|i: int| 0 <= i < p.len() implies #[trigger] e[i] == (p[i] as u32) as u8 by {
                    if i > 0 {
                        assert(e[i] == er[i - 1]);
                        assert(p[i] == q[i - 1]);
                    }
                }
                assert(s.take(p.len() as int) =~= seq![s[0]] + rest.take(q.len() as int));
                assert(p =~= seq![p[0]] + q);
            }
            if s.len() >= p.len() && s.take(p.len() as int) == p {
                assert(rest.take(q.len() as int) =~= s.take(p.len() as int).drop_first());
                assert forall|i: int| 0 <= i < q.len() implies #[trigger] er[i] == (q[i] as u32) as u8 by {
                    assert(e[i + 1] == er[i]);
                    assert(p[i + 1] == q[i]);
                }
            }
        } else {
            char_u32_cast(s[0], s[0] as u32);
            char_u32_cast(p[0], p[0] as u32);
            assert(e[0] == encode_scalar(s[0] as u32)[0]);
            assert(e[0] != (p[0] as u32) as u8);
            if s.len() >= p.len() {
                assert(s.take(p.len() as int)[0] == s[0]);
            }
        }
    }
}

/// Exactly the file types whose name begins with `rust` get the Rust
/// notations.
pub proof fn law_rust_filetypes(ft: Seq<char>)
    ensures
        spec_filetype_kind(ft).rust <==> (ft.len() >= 4 && ft.take(4) == "rust"@),
{
    reveal_strlit("rust");
    let p = "rust"@;
    lemma_ascii_prefix(ft, p);
    let b = encode_utf8(ft);
    if b.len() >= 4 && b[0] == 0x72 && b[1] == 0x75 && b[2] == 0x73 && b[3] == 0x74 {
        assert forall|i: int| 0 <= i < p.len() implies #[trigger] b[i] == (p[i] as u32) as u8 by {
            if i == 0 {
            } else if i == 1 {
            } else if i == 2 {
            } else {
            }
        }
    }
    if ft.len() >= 4 && ft.take(4) == p {
        assert(b[0] == (p[0] as u32) as u8);
        assert(b[1] == (p[1] as u32) as u8);
        assert(b[2] == (p[2] as u32) as u8);
        assert(b[3] == (p[3] as u32) as u8);
    }
}


/// Nothing but a colour keyword of CSS Color Module Level 4 denotes a colour.
pub proof fn law_only_css_keywords(name: Seq<char>)
    ensures
        named_color(name) is Some ==> {
            ||| name == "aliceblue"@
            ||| name == "antiquewhite"@
            ||| name == "aqua"@
            ||| name == "aquamarine"@
            ||| name == "azure"@
            ||| name == "beige"@
            ||| name == "bisque"@
            ||| name == "black"@
            ||| name == "blanchedalmond"@
            ||| name == "blue"@
            ||| name == "blueviolet"@
            ||| name == "brown"@
            ||| name == "burlywood"@
            ||| name == "cadetblue"@
            ||| name == "chartreuse"@
            ||| name == "chocolate"@
            ||| name == "coral"@
            ||| name == "cornflowerblue"@
            ||| name == "cornsilk"@
            ||| name == "crimson"@
            ||| name == "cyan"@
            ||| name == "darkblue"@
            ||| name == "darkcyan"@
            ||| name == "darkgoldenrod"@
            ||| name == "darkgray"@
            ||| name == "darkgreen"@
            ||| name == "darkgrey"@
            ||| name == "darkkhaki"@
            ||| name == "darkmagenta"@
            ||| name == "darkolivegreen"@
            ||| name == "darkorange"@
            ||| name == "darkorchid"@
            ||| name == "darkred"@
            ||| name == "darksalmon"@
            ||| name == "darkseagreen"@
            ||| name == "darkslateblue"@
            ||| name == "darkslategray"@
            ||| name == "darkslategrey"@
            ||| name == "darkturquoise"@
            ||| name == "darkviolet"@
            ||| name == "deeppink"@
            ||| name == "deepskyblue"@
            ||| name == "dimgray"@
            ||| name == "dimgrey"@
            ||| name == "dodgerblue"@
            ||| name == "firebrick"@
            ||| name == "floralwhite"@
            ||| name == "forestgreen"@
            ||| name == "fuchsia"@
            ||| name == "gainsboro"@
            ||| name == "ghostwhite"@
            ||| name == "gold"@
            ||| name == "goldenrod"@
            ||| name == "gray"@
            ||| name == "green"@
            ||| name == "greenyellow"@
            ||| name == "grey"@
            ||| name == "honeydew"@
            ||| name == "hotpink"@
            ||| name == "indianred"@
            ||| name == "indigo"@
            ||| name == "ivory"@
            ||| name == "khaki"@
            ||| name == "lavender"@
            ||| name == "lavenderblush"@
            ||| name == "lawngreen"@
            ||| name == "lemonchiffon"@
            ||| name == "lightblue"@
            ||| name == "lightcoral"@
            ||| name == "lightcyan"@
            ||| name == "lightgoldenrodyellow"@
            ||| name == "lightgray"@
            ||| name == "lightgreen"@
            ||| name == "lightgrey"@
            ||| name == "lightpink"@
            ||| name == "lightsalmon"@
            ||| name == "lightseagreen"@
            ||| name == "lightskyblue"@
            ||| name == "lightslategray"@
            ||| name == "lightslategrey"@
            ||| name == "lightsteelblue"@
            ||| name == "lightyellow"@
            ||| name == "lime"@
            ||| name == "limegreen"@
            ||| name == "linen"@
            ||| name == "magenta"@
            ||| name == "maroon"@
            ||| name == "mediumaquamarine"@
            ||| name == "mediumblue"@
            ||| name == "mediumorchid"@
            ||| name == "mediumpurple"@
            ||| name == "mediumseagreen"@
            ||| name == "mediumslateblue"@
            ||| name == "mediumspringgreen"@
            ||| name == "mediumturquoise"@
            ||| name == "mediumvioletred"@
            ||| name == "midnightblue"@
            ||| name == "mintcream"@
            ||| name == "mistyrose"@
            ||| name == "moccasin"@
            ||| name == "navajowhite"@
            ||| name == "navy"@
            ||| name == "oldlace"@
            ||| name == "olive"@
            ||| name == "olivedrab"@
            ||| name == "orange"@
            ||| name == "orangered"@
            ||| name == "orchid"@
            ||| name == "palegoldenrod"@
            ||| name == "palegreen"@
            ||| name == "paleturquoise"@
            ||| name == "palevioletred"@
            ||| name == "papayawhip"@
            ||| name == "peachpuff"@
            ||| name == "peru"@
            ||| name == "pink"@
            ||| name == "plum"@
            ||| name == "powderblue"@
            ||| name == "purple"@
            ||| name == "rebeccapurple"@
            ||| name == "red"@
            ||| name == "rosybrown"@
            ||| name == "royalblue"@
            ||| name == "saddlebrown"@
            ||| name == "salmon"@
            ||| name == "sandybrown"@
            ||| name == "seagreen"@
            ||| name == "seashell"@
            ||| name == "sienna"@
            ||| name == "silver"@
            ||| name == "skyblue"@
            ||| name == "slateblue"@
            ||| name == "slategray"@
            ||| name == "slategrey"@
            ||| name == "snow"@
            ||| name == "springgreen"@
            ||| name == "steelblue"@
            ||| name == "tan"@
            ||| name == "teal"@
            ||| name == "thistle"@
            ||| name == "tomato"@
            ||| name == "turquoise"@
            ||| name == "violet"@
            ||| name == "wheat"@
            ||| name == "white"@
            ||| name == "whitesmoke"@
            ||| name == "yellow"@
            ||| name == "yellowgreen"@
        },
{
}

/// The ASCII lower-case form of the character `c`.
pub open spec fn lower_char(c: char) -> char {
    if 'A' <= c <= 'Z' {
        ((c as u32) + 0x20) as char
    } else {
        c
    }
}

/// A colour keyword is recognised in any mix of upper and lower case: a word
/// of ASCII letters is painted, over the whole match, with the colour of the
/// keyword its lower-case form is, and is not painted when that form is no
/// keyword.
pub proof fn law_keywords_any_case(
    line: Seq<char>,
    row: usize,
    g: Groups,
    vars: Map<Seq<char>, Rgb>,
    css: bool,
)
    requires
        groups_placed(g, encode_utf8(line)),
        g.len() > 1,
        g[1] is Some,
        is_ascii_chars(decoded(encode_utf8(line), (g[1]->0).0 as int, (g[1]->0).1 as int)),
    ensures
        ({
            let whole = g[0]->0;
            let n = g[1]->0;
            let word = decoded(encode_utf8(line), n.0 as int, n.1 as int);
            let lower = word.map_values(|c: char| lower_char(c));
            mark_step(Pattern::ColorWord, line, row, g, vars, css) == match named_color(lower) {
                Some(c) => Step::Emit(Mark { row, start: whole.0, end: whole.1, paint: Paint::Solid(c) }),
                None => Step::<Mark>::Skip,
            }
        }),
{
    let n = g[1]->0;
    let word = decoded(encode_utf8(line), n.0 as int, n.1 as int);
    assert(ascii_lowercase(word) =~= word.map_values(|c: char| lower_char(c)));
}

/// A property value with no `#` code, `rgb()` or `hsl()` in it denotes the
/// colour keyword it is, in any mix of upper and lower case.
pub proof fn law_value_keywords_any_case(value: Seq<char>)
    requires
        is_ascii_chars(value),
    ensures
        resolve_from(value, Seq::empty(), Seq::empty(), Seq::empty()) == match named_color(
            value.map_values(|c: char| lower_char(c)),
        ) {
            Some(c) => Ok::<Option<Paint>, Halt>(Some(Paint::Solid(c))),
            None => Ok(None),
        },
{
    assert(ascii_lowercase(value) =~= value.map_values(|c: char| lower_char(c)));
}

} // verus!
