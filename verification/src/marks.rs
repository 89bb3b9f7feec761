//! Where a line of a buffer names a colour: the spans to highlight and how
//! each one's colour is obtained.

use vstd::prelude::*;
use vstd::string::*;
use vstd::utf8::*;

use crate::hex::{parse_hex, parse_hex_panics, parse_hex_would_panic, spec_parse_hex, Rgb};
use crate::matching::{group_placed, Groups};
use crate::named::{named_color, named_color_lookup};
use crate::steps::{Halt, Step};
use crate::text::{
    decoded,
    is_char_range,
    lemma_boundary_after_ascii,
    lowercase_of,
    str_equals,
    substring,
    to_lowercase,
};
use crate::units::{component_at, hue_at, spec_component, spec_hue, Component, Hue};
use crate::vars::CssVars;
use crate::patterns::Pattern;

verus! {

broadcast use {encode_utf8_valid_utf8, encode_utf8_decode_utf8, is_char_boundary_start_end_of_seq};

/// How the colour of a highlighted span is obtained.
#[derive(Clone, Copy, Debug, PartialEq, Eq)]
pub enum Paint {
    /// The colour itself.
    Solid(Rgb),
    /// CSS `rgb(r g b)`: each channel is its number (a percentage of 255 when
    /// marked `%`), converted to a byte.
    CssRgb(Component, Component, Component),
    /// CSS `hsl(h s l)`: hue in its unit, saturation and lightness as
    /// fractions (percentages when marked `%`).
    CssHsl(Hue, Component, Component),
    /// Rust `hsla(h, s, l, a)`: the byte ranges of the three decimal literals
    /// hue (in turns), saturation and lightness; the span is painted only if
    /// all three read as numbers.
    RustHsla((usize, usize), (usize, usize), (usize, usize)),
}

/// A span `start..end` (byte offsets) of line `row` to paint.
#[derive(Clone, Copy, Debug, PartialEq, Eq)]
pub struct Mark {
    pub row: usize,
    pub start: usize,
    pub end: usize,
    pub paint: Paint,
}

/// Which notations a file type gets.
#[derive(Clone, Copy, Debug, PartialEq, Eq, Structural)]
pub struct FileKind {
    /// A CSS-family type: short hex codes, CSS colour functions, custom
    /// properties and colour keywords are recognised.
    pub css: bool,
    /// A Rust type: `rgb(0x..)`, `rgba(0x..)` and `hsla(..)` are recognised.
    pub rust: bool,
}

/// The file types of the CSS family.
pub open spec fn is_css_filetype(ft: Seq<char>) -> bool {
    ||| ft == "css"@
    ||| ft == "scss"@
    ||| ft == "sass"@
    ||| ft == "less"@
    ||| ft == "postcss"@
    ||| ft == "stylus"@
    ||| ft == "html"@
    ||| ft == "javascript"@
    ||| ft == "typescript"@
    ||| ft == "javascriptreact"@
    ||| ft == "typescriptreact"@
    ||| ft == "vue"@
    ||| ft == "svelte"@
}

/// The file types whose name begins with `rust`.
pub open spec fn is_rust_filetype(ft: Seq<char>) -> bool {
    let b = encode_utf8(ft);
    &&& b.len() >= 4
    &&& b[0] == 0x72
    &&& b[1] == 0x75
    &&& b[2] == 0x73
    &&& b[3] == 0x74
}

/// The notations file type `ft` gets.
pub open spec fn spec_filetype_kind(ft: Seq<char>) -> FileKind {
    FileKind { css: is_css_filetype(ft), rust: is_rust_filetype(ft) }
}

/// The notations file type `ft` gets.
pub fn filetype_kind(ft: &str) -> (res: FileKind)
    ensures
        res == spec_filetype_kind(ft@),
{
    let css = str_equals(ft, "css") || str_equals(ft, "scss") || str_equals(ft, "sass")
        || str_equals(ft, "less") || str_equals(ft, "postcss") || str_equals(ft, "stylus")
        || str_equals(ft, "html") || str_equals(ft, "javascript") || str_equals(
        ft,
        "typescript",
    ) || str_equals(ft, "javascriptreact") || str_equals(ft, "typescriptreact") || str_equals(
        ft,
        "vue",
    ) || str_equals(ft, "svelte");
    let b = ft.as_bytes();
    let rust = b.len() >= 4 && b[0] == 0x72 && b[1] == 0x75 && b[2] == 0x73 && b[3] == 0x74;
    FileKind { css, rust }
}

/// Group `j` of a match, `None` if the match has no such group.
pub open spec fn group_at(g: Groups, j: int) -> Option<(usize, usize)> {
    if 0 <= j < g.len() {
        g[j]
    } else {
        None
    }
}

/// A match as `regex` gives one: it has its whole-match group, and every group
/// lies between character boundaries of the text `b`.
pub open spec fn groups_placed(g: Groups, b: Seq<u8>) -> bool {
    &&& g.len() > 0
    &&& g[0] is Some
    &&& forall|j: int| 0 <= j < g.len() ==> group_placed(#[trigger] g[j], b)
}

/// The offset of the first byte of `b[i..end]` that is not `#`.
pub open spec fn skip_hashes(b: Seq<u8>, i: int, end: int) -> int
    decreases end - i,
{
    if i < end && b[i] == 0x23 {
        skip_hashes(b, i + 1, end)
    } else {
        i
    }
}

/// A `#` colour code spanning `b[start..end]`: its digits after the leading
/// `#`s; three or four digits count only in CSS-family files.
pub open spec fn hex_mark_step(b: Seq<u8>, row: usize, start: usize, end: usize, css: bool) -> Step<
    Mark,
> {
    let digits = skip_hashes(b, start as int, end as int);
    let n = end - digits;
    if (n == 3 || n == 4) && !css {
        Step::Skip
    } else {
        let h = b.subrange(digits, end as int);
        if parse_hex_panics(h) {
            Step::Stop(Halt::Panicked)
        } else {
            match spec_parse_hex(h) {
                Some(c) => Step::Emit(Mark { row, start, end, paint: Paint::Solid(c) }),
                None => Step::Skip,
            }
        }
    }
}

/// Rust `rgb(0x...)` spanning `start..end`, its digits at `b[ds..de]`.
pub open spec fn rust_rgb_step(b: Seq<u8>, row: usize, start: usize, end: usize, ds: usize, de: usize) -> Step<Mark> {
    let h = b.subrange(ds as int, de as int);
    if parse_hex_panics(h) {
        Step::Stop(Halt::Panicked)
    } else {
        match spec_parse_hex(h) {
            Some(c) => Step::Emit(Mark { row, start, end, paint: Paint::Solid(c) }),
            None => Step::Skip,
        }
    }
}

/// Rust `rgba(0x...)` spanning `start..end`, its digits at `b[ds..de]`: the
/// first six digits are the colour, the alpha pair is ignored.
pub open spec fn rust_rgba_step(b: Seq<u8>, row: usize, start: usize, end: usize, ds: usize, de: usize) -> Step<Mark> {
    let h = b.subrange(ds as int, de as int);
    if h.len() >= 6 {
        if !is_char_boundary(h, 6) {
            Step::Stop(Halt::Panicked)
        } else {
            let h6 = h.subrange(0, 6);
            if parse_hex_panics(h6) {
                Step::Stop(Halt::Panicked)
            } else {
                match spec_parse_hex(h6) {
                    Some(c) => Step::Emit(Mark { row, start, end, paint: Paint::Solid(c) }),
                    None => Step::Skip,
                }
            }
        }
    } else {
        Step::Skip
    }
}

/// What the match `g` of notation `p` in line `row` (text `line`) contributes,
/// with custom properties `vars`, in a file of the CSS family or not.
pub open spec fn mark_step(
    p: Pattern,
    line: Seq<char>,
    row: usize,
    g: Groups,
    vars: Map<Seq<char>, Rgb>,
    css: bool,
) -> Step<Mark> {
    let b = encode_utf8(line);
    if !groups_placed(g, b) {
        Step::Stop(Halt::MisplacedGroup)
    } else {
        let (start, end) = match g[0] {
            Some(w) => w,
            None => (0usize, 0usize),
        };
        match p {
            Pattern::HexMark => hex_mark_step(b, row, start, end, css),
            Pattern::CssRgb => match (group_at(g, 1), group_at(g, 2), group_at(g, 3)) {
                (Some(r), Some(gr), Some(bl)) => Step::Emit(
                    Mark {
                        row,
                        start,
                        end,
                        paint: Paint::CssRgb(
                            spec_component(b, r.0 as int, r.1 as int),
                            spec_component(b, gr.0 as int, gr.1 as int),
                            spec_component(b, bl.0 as int, bl.1 as int),
                        ),
                    },
                ),
                _ => Step::Skip,
            },
            Pattern::CssHsl => match (group_at(g, 1), group_at(g, 2), group_at(g, 3)) {
                (Some(h), Some(s), Some(l)) => Step::Emit(
                    Mark {
                        row,
                        start,
                        end,
                        paint: Paint::CssHsl(
                            spec_hue(b, h.0 as int, h.1 as int),
                            spec_component(b, s.0 as int, s.1 as int),
                            spec_component(b, l.0 as int, l.1 as int),
                        ),
                    },
                ),
                _ => Step::Skip,
            },
            Pattern::CssVar => match group_at(g, 1) {
                Some(n) => {
                    let name = decoded(b, n.0 as int, n.1 as int);
                    if vars.contains_key(name) {
                        Step::Emit(Mark { row, start, end, paint: Paint::Solid(vars[name]) })
                    } else {
                        Step::Skip
                    }
                },
                None => Step::Skip,
            },
            Pattern::ColorWord => match group_at(g, 1) {
                Some(w) => match named_color(lowercase_of(decoded(b, w.0 as int, w.1 as int))) {
                    Some(c) => Step::Emit(Mark { row, start, end, paint: Paint::Solid(c) }),
                    None => Step::Skip,
                },
                None => Step::Skip,
            },
            Pattern::RustRgb => match group_at(g, 1) {
                Some(d) => rust_rgb_step(b, row, start, end, d.0, d.1),
                None => Step::Skip,
            },
            Pattern::RustRgba => match group_at(g, 1) {
                Some(d) => rust_rgba_step(b, row, start, end, d.0, d.1),
                None => Step::Skip,
            },
            Pattern::RustHsla => match (group_at(g, 1), group_at(g, 2), group_at(g, 3)) {
                (Some(h), Some(s), Some(l)) => Step::Emit(
                    Mark { row, start, end, paint: Paint::RustHsla(h, s, l) },
                ),
                _ => Step::Skip,
            },
            _ => Step::Skip,
        }
    }
}

/// The steps of all matches `caps` of notation `p` in one line.
pub open spec fn family_steps(
    p: Pattern,
    line: Seq<char>,
    row: usize,
    caps: Seq<Groups>,
    vars: Map<Seq<char>, Rgb>,
    css: bool,
) -> Seq<Step<Mark>> {
    Seq::new(caps.len(), |i: int| mark_step(p, line, row, caps[i], vars, css))
}

/// The steps of one line, notation after notation: `#` codes; then, in the
/// CSS family, `rgb()`, `hsl()`, `var()` and keywords; then, in Rust,
/// `rgb(0x..)`, `rgba(0x..)` and `hsla(..)`. `found` gives each notation's
/// matches in the line.
pub open spec fn line_steps(
    line: Seq<char>,
    row: usize,
    kind: FileKind,
    vars: Map<Seq<char>, Rgb>,
    found: spec_fn(Pattern) -> Seq<Groups>,
) -> Seq<Step<Mark>> {
    let css = kind.css;
    let fs = |p: Pattern| family_steps(p, line, row, found(p), vars, css);
    fs(Pattern::HexMark) + (if css {
        fs(Pattern::CssRgb) + fs(Pattern::CssHsl) + fs(Pattern::CssVar) + fs(Pattern::ColorWord)
    } else {
        Seq::empty()
    }) + (if kind.rust {
        fs(Pattern::RustRgb) + fs(Pattern::RustRgba) + fs(Pattern::RustHsla)
    } else {
        Seq::empty()
    })
}

/// Whether the match `g` is placed as `regex` places matches in `line`.
pub(crate) fn groups_placed_exec(line: &str, g: &Vec<Option<(usize, usize)>>) -> (res: bool)
    ensures
        res == groups_placed(g@, line.spec_bytes()),
{
    if g.len() == 0 || g[0].is_none() {
        return false;
    }
    let n = line.as_bytes().len();
    let mut j: usize = 0;
    while j < g.len()
        invariant
            n == line.spec_bytes().len(),
            0 <= j <= g@.len(),
            forall|k: int| 0 <= k < j ==> group_placed(#[trigger] g@[k], line.spec_bytes()),
        decreases g.len() - j,
    {
        match g[j] {
            Some((s, e)) => {
                if !(s <= e && e <= n && line.is_char_boundary(s) && line.is_char_boundary(e)) {
                    assert(!group_placed(g@[j as int], line.spec_bytes()));
                    return false;
                }
            },
            None => {},
        }
        j = j + 1;
    }
    true
}

fn group_exec(g: &Vec<Option<(usize, usize)>>, j: usize) -> (res: Option<(usize, usize)>)
    ensures
        res == group_at(g@, j as int),
{
    if j < g.len() {
        g[j]
    } else {
        None
    }
}

proof fn lemma_skip_hashes(b: Seq<u8>, i: int, end: int)
    requires
        valid_utf8(b),
        is_char_range(b, i, end),
    ensures
        i <= skip_hashes(b, i, end) <= end,
        is_char_range(b, skip_hashes(b, i, end), end),
    decreases end - i,
{
    if i < end && b[i] == 0x23 {
        lemma_boundary_after_ascii(b, i);
        lemma_skip_hashes(b, i + 1, end);
    }
}

fn hex_mark_exec(line: &str, row: usize, start: usize, end: usize, css: bool) -> (res: Step<Mark>)
    requires
        is_char_range(line.spec_bytes(), start as int, end as int),
    ensures
        res == hex_mark_step(line.spec_bytes(), row, start, end, css),
{
    let b = line.as_bytes();
    proof {
        lemma_skip_hashes(b@, start as int, end as int);
    }
    let mut digits = start;
    while digits < end && b[digits] == 0x23
        invariant
            start <= digits <= end <= b@.len(),
            skip_hashes(b@, digits as int, end as int) == skip_hashes(
                b@,
                start as int,
                end as int,
            ),
        decreases end - digits,
    {
        digits = digits + 1;
    }
    let n = end - digits;
    if (n == 3 || n == 4) && !css {
        return Step::Skip;
    }
    let hex = substring(line, digits, end);
    if parse_hex_would_panic(hex) {
        return Step::Stop(Halt::Panicked);
    }
    match parse_hex(hex) {
        Some(c) => Step::Emit(Mark { row, start, end, paint: Paint::Solid(c) }),
        None => Step::Skip,
    }
}

fn rust_rgb_exec(line: &str, row: usize, start: usize, end: usize, ds: usize, de: usize) -> (res: Step<Mark>)
    requires
        is_char_range(line.spec_bytes(), ds as int, de as int),
    ensures
        res == rust_rgb_step(line.spec_bytes(), row, start, end, ds, de),
{
    let hex = substring(line, ds, de);
    if parse_hex_would_panic(hex) {
        return Step::Stop(Halt::Panicked);
    }
    match parse_hex(hex) {
        Some(c) => Step::Emit(Mark { row, start, end, paint: Paint::Solid(c) }),
        None => Step::Skip,
    }
}

fn rust_rgba_exec(line: &str, row: usize, start: usize, end: usize, ds: usize, de: usize) -> (res: Step<Mark>)
    requires
        is_char_range(line.spec_bytes(), ds as int, de as int),
    ensures
        res == rust_rgba_step(line.spec_bytes(), row, start, end, ds, de),
{
    let hex = substring(line, ds, de);
    if hex.as_bytes().len() < 6 {
        return Step::Skip;
    }
    if !hex.is_char_boundary(6) {
        return Step::Stop(Halt::Panicked);
    }
    let h6 = substring(hex, 0, 6);
    if parse_hex_would_panic(h6) {
        return Step::Stop(Halt::Panicked);
    }
    match parse_hex(h6) {
        Some(c) => Step::Emit(Mark { row, start, end, paint: Paint::Solid(c) }),
        None => Step::Skip,
    }
}

/// What the match `g` of notation `p` in line `row` contributes.
pub fn mark_step_exec(
    p: Pattern,
    line: &str,
    row: usize,
    g: &Vec<Option<(usize, usize)>>,
    vars: &CssVars,
    css: bool,
) -> (res: Step<Mark>)
    ensures
        res == mark_step(p, line@, row, g@, vars@, css),
{
    if !groups_placed_exec(line, g) {
        return Step::Stop(Halt::MisplacedGroup);
    }
    let ghost b = line.spec_bytes();
    let (start, end) = match g[0] {
        Some(w) => w,
        None => (0, 0),
    };
    assert(group_placed(g@[0], b));
    match p {
        Pattern::HexMark => hex_mark_exec(line, row, start, end, css),
        Pattern::CssRgb => match (group_exec(g, 1), group_exec(g, 2), group_exec(g, 3)) {
            (Some(r), Some(gr), Some(bl)) => {
                assert(group_placed(g@[1], b));
                assert(group_placed(g@[2], b));
                assert(group_placed(g@[3], b));
                Step::Emit(
                    Mark {
                        row,
                        start,
                        end,
                        paint: Paint::CssRgb(
                            component_at(line, r.0, r.1),
                            component_at(line, gr.0, gr.1),
                            component_at(line, bl.0, bl.1),
                        ),
                    },
                )
            },
            _ => Step::Skip,
        },
        Pattern::CssHsl => match (group_exec(g, 1), group_exec(g, 2), group_exec(g, 3)) {
            (Some(h), Some(s), Some(l)) => {
                assert(group_placed(g@[1], b));
                assert(group_placed(g@[2], b));
                assert(group_placed(g@[3], b));
                Step::Emit(
                    Mark {
                        row,
                        start,
                        end,
                        paint: Paint::CssHsl(
                            hue_at(line, h.0, h.1),
                            component_at(line, s.0, s.1),
                            component_at(line, l.0, l.1),
                        ),
                    },
                )
            },
            _ => Step::Skip,
        },
        Pattern::CssVar => match group_exec(g, 1) {
            Some(n) => {
                assert(group_placed(g@[1], b));
                let name = substring(line, n.0, n.1);
                match vars.get(name) {
                    Some(c) => Step::Emit(Mark { row, start, end, paint: Paint::Solid(c) }),
                    None => Step::Skip,
                }
            },
            None => Step::Skip,
        },
        Pattern::ColorWord => match group_exec(g, 1) {
            Some(w) => {
                assert(group_placed(g@[1], b));
                let word = substring(line, w.0, w.1);
                let lower = to_lowercase(word);
                match named_color_lookup(lower.as_str()) {
                    Some(c) => Step::Emit(Mark { row, start, end, paint: Paint::Solid(c) }),
                    None => Step::Skip,
                }
            },
            None => Step::Skip,
        },
        Pattern::RustRgb => match group_exec(g, 1) {
            Some(d) => {
                assert(group_placed(g@[1], b));
                rust_rgb_exec(line, row, start, end, d.0, d.1)
            },
            None => Step::Skip,
        },
        Pattern::RustRgba => match group_exec(g, 1) {
            Some(d) => {
                assert(group_placed(g@[1], b));
                rust_rgba_exec(line, row, start, end, d.0, d.1)
            },
            None => Step::Skip,
        },
        Pattern::RustHsla => match (group_exec(g, 1), group_exec(g, 2), group_exec(g, 3)) {
            (Some(h), Some(s), Some(l)) => Step::Emit(
                Mark { row, start, end, paint: Paint::RustHsla(h, s, l) },
            ),
            _ => Step::Skip,
        },
        _ => Step::Skip,
    }
}

} // verus!
