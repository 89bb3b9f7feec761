//! Scanning lines and whole buffers for colour notations.

use vstd::prelude::*;

use crate::hex::Rgb;
use crate::marks::{
    family_steps,
    filetype_kind,
    line_steps,
    mark_step_exec,
    spec_filetype_kind,
    FileKind,
    Mark,
};
use crate::matching::{captures_view, captures_well_placed, regex_captures, Groups};
use crate::patterns::{pattern_source, Pattern, Patterns};
use crate::steps::{
    fresh,
    lemma_run_concat,
    lemma_run_halted,
    lemma_run_take_next,
    run_steps,
    Halt,
    Scan,
    Step,
};
use crate::vars::CssVars;

verus! {

/// The matches found in one line, for each notation a line is searched for.
pub struct LineCaptures {
    pub hex_mark: Vec<Vec<Option<(usize, usize)>>>,
    pub css_rgb: Vec<Vec<Option<(usize, usize)>>>,
    pub css_hsl: Vec<Vec<Option<(usize, usize)>>>,
    pub css_var: Vec<Vec<Option<(usize, usize)>>>,
    pub color_word: Vec<Vec<Option<(usize, usize)>>>,
    pub rust_rgb: Vec<Vec<Option<(usize, usize)>>>,
    pub rust_rgba: Vec<Vec<Option<(usize, usize)>>>,
    pub rust_hsla: Vec<Vec<Option<(usize, usize)>>>,
}

impl LineCaptures {
    /// The matches held for notation `p` (none for the notations a line is
    /// not searched for).
    pub open spec fn found(self, p: Pattern) -> Seq<Groups> {
        match p {
            Pattern::HexMark => captures_view(self.hex_mark@),
            Pattern::CssRgb => captures_view(self.css_rgb@),
            Pattern::CssHsl => captures_view(self.css_hsl@),
            Pattern::CssVar => captures_view(self.css_var@),
            Pattern::ColorWord => captures_view(self.color_word@),
            Pattern::RustRgb => captures_view(self.rust_rgb@),
            Pattern::RustRgba => captures_view(self.rust_rgba@),
            Pattern::RustHsla => captures_view(self.rust_hsla@),
            _ => Seq::empty(),
        }
    }

    fn of(&self, p: Pattern) -> (res: &Vec<Vec<Option<(usize, usize)>>>)
        requires
            p != Pattern::HexValue,
            p != Pattern::VarDef,
        ensures
            captures_view(res@) == self.found(p),
    {
        match p {
            Pattern::HexMark => &self.hex_mark,
            Pattern::CssRgb => &self.css_rgb,
            Pattern::CssHsl => &self.css_hsl,
            Pattern::CssVar => &self.css_var,
            Pattern::ColorWord => &self.color_word,
            Pattern::RustRgb => &self.rust_rgb,
            Pattern::RustRgba => &self.rust_rgba,
            _ => &self.rust_hsla,
        }
    }
}

/// Continues `scan` with the matches `caps` of notation `p` in line `row`.
fn run_family(
    scan: &mut Scan<Mark>,
    p: Pattern,
    line: &str,
    row: usize,
    caps: &Vec<Vec<Option<(usize, usize)>>>,
    vars: &CssVars,
    css: bool,
)
    ensures
        final(scan)@ == run_steps(
            old(scan)@,
            family_steps(p, line@, row, captures_view(caps@), vars@, css),
        ),
        captures_well_placed(captures_view(caps@), line@) && old(scan).halt != Some(
            Halt::MisplacedGroup,
        ) ==> final(scan).halt != Some(Halt::MisplacedGroup),
{
    let ghost start = scan@;
    let ghost steps = family_steps(p, line@, row, captures_view(caps@), vars@, css);
    let mut i: usize = 0;
    while i < caps.len()
        invariant
            0 <= i <= caps@.len(),
            steps == family_steps(p, line@, row, captures_view(caps@), vars@, css),
            scan@ == run_steps(start, steps.take(i as int)),
            captures_well_placed(captures_view(caps@), line@) && start.1 != Some(
                Halt::MisplacedGroup,
            ) ==> scan.halt != Some(Halt::MisplacedGroup),
        decreases caps.len() - i,
    {
        let step = mark_step_exec(p, line, row, &caps[i], vars, css);
        assert(caps@[i as int]@ == captures_view(caps@)[i as int]);
        proof {
            lemma_run_take_next(start, steps, i as int);
        }
        scan.take_step(step);
        i = i + 1;
    }
    assert(steps.take(caps@.len() as int) =~= steps);
}

/// Continues `scan` with the marks of line `row` (text `line`), given the
/// matches `caps` found in it.
pub fn extend_with_line(
    scan: &mut Scan<Mark>,
    line: &str,
    row: usize,
    kind: FileKind,
    vars: &CssVars,
    caps: &LineCaptures,
)
    ensures
        final(scan)@ == run_steps(
            old(scan)@,
            line_steps(line@, row, kind, vars@, |p: Pattern| caps.found(p)),
        ),
        (forall|p: Pattern| captures_well_placed(#[trigger] caps.found(p), line@)) && old(
            scan,
        ).halt != Some(Halt::MisplacedGroup) ==> final(scan).halt != Some(Halt::MisplacedGroup),
{
    let ghost start = scan@;
    let ghost css = kind.css;
    let ghost fs = |p: Pattern| family_steps(p, line@, row, caps.found(p), vars@, css);
    let ghost css_part = if css {
        fs(Pattern::CssRgb) + fs(Pattern::CssHsl) + fs(Pattern::CssVar) + fs(Pattern::ColorWord)
    } else {
        Seq::<Step<Mark>>::empty()
    };
    let ghost rust_part = if kind.rust {
        fs(Pattern::RustRgb) + fs(Pattern::RustRgba) + fs(Pattern::RustHsla)
    } else {
        Seq::<Step<Mark>>::empty()
    };
    run_family(scan, Pattern::HexMark, line, row, caps.of(Pattern::HexMark), vars, kind.css);
    let ghost after_hex = scan@;
    if kind.css {
        run_family(scan, Pattern::CssRgb, line, row, caps.of(Pattern::CssRgb), vars, kind.css);
        run_family(scan, Pattern::CssHsl, line, row, caps.of(Pattern::CssHsl), vars, kind.css);
        run_family(scan, Pattern::CssVar, line, row, caps.of(Pattern::CssVar), vars, kind.css);
        run_family(
            scan,
            Pattern::ColorWord,
            line,
            row,
            caps.of(Pattern::ColorWord),
            vars,
            kind.css,
        );
        proof {
            lemma_run_concat(after_hex, fs(Pattern::CssRgb), fs(Pattern::CssHsl));
            lemma_run_concat(
                after_hex,
                fs(Pattern::CssRgb) + fs(Pattern::CssHsl),
                fs(Pattern::CssVar),
            );
            lemma_run_concat(
                after_hex,
                fs(Pattern::CssRgb) + fs(Pattern::CssHsl) + fs(Pattern::CssVar),
                fs(Pattern::ColorWord),
            );
        }
    }
    assert(scan@ == run_steps(after_hex, css_part));
    let ghost after_css = scan@;
    if kind.rust {
        run_family(scan, Pattern::RustRgb, line, row, caps.of(Pattern::RustRgb), vars, kind.css);
        run_family(
            scan,
            Pattern::RustRgba,
            line,
            row,
            caps.of(Pattern::RustRgba),
            vars,
            kind.css,
        );
        run_family(
            scan,
            Pattern::RustHsla,
            line,
            row,
            caps.of(Pattern::RustHsla),
            vars,
            kind.css,
        );
        proof {
            lemma_run_concat(after_css, fs(Pattern::RustRgb), fs(Pattern::RustRgba));
            lemma_run_concat(
                after_css,
                fs(Pattern::RustRgb) + fs(Pattern::RustRgba),
                fs(Pattern::RustHsla),
            );
        }
    }
    assert(scan@ == run_steps(after_css, rust_part));
    proof {
        lemma_run_concat(start, fs(Pattern::HexMark), css_part);
        lemma_run_concat(start, fs(Pattern::HexMark) + css_part, rust_part);
        assert(line_steps(line@, row, kind, vars@, |p: Pattern| caps.found(p)) == fs(
            Pattern::HexMark,
        ) + css_part + rust_part);
    }
}

/// The marks of line `row` (text `line`) of a file of kind `kind`, given the
/// matches `caps` found in it, up to the first match that cannot be read.
pub fn marks_from_captures(
    line: &str,
    row: usize,
    kind: FileKind,
    vars: &CssVars,
    caps: &LineCaptures,
) -> (res: Scan<Mark>)
    ensures
        res@ == run_steps(
            fresh::<Mark>(),
            line_steps(line@, row, kind, vars@, |p: Pattern| caps.found(p)),
        ),
{
    let mut scan = Scan::new();
    extend_with_line(&mut scan, line, row, kind, vars, caps);
    scan
}

/// The matches of every notation a file of kind `kind` gets, in `line`; an
/// empty list for the others.
fn empty_captures() -> (res: Vec<Vec<Option<(usize, usize)>>>)
    ensures
        res@.len() == 0,
{
    Vec::new()
}

/// The matches, in `line`, of each notation a file of kind `kind` gets.
fn line_captures(patterns: &Patterns, line: &str, kind: FileKind) -> (res: LineCaptures)
    ensures
        forall|p: Pattern|
            (p == Pattern::HexMark || (kind.css && (p == Pattern::CssRgb || p == Pattern::CssHsl
                || p == Pattern::CssVar || p == Pattern::ColorWord)) || (kind.rust && (p
                == Pattern::RustRgb || p == Pattern::RustRgba || p == Pattern::RustHsla)))
                ==> #[trigger] res.found(p) == regex_captures(pattern_source(p), line@),
        forall|p: Pattern| captures_well_placed(#[trigger] res.found(p), line@),
{
    let hex_mark = patterns.captures(Pattern::HexMark, line);
    let (css_rgb, css_hsl, css_var, color_word) = if kind.css {
        (
            patterns.captures(Pattern::CssRgb, line),
            patterns.captures(Pattern::CssHsl, line),
            patterns.captures(Pattern::CssVar, line),
            patterns.captures(Pattern::ColorWord, line),
        )
    } else {
        (empty_captures(), empty_captures(), empty_captures(), empty_captures())
    };
    let (rust_rgb, rust_rgba, rust_hsla) = if kind.rust {
        (
            patterns.captures(Pattern::RustRgb, line),
            patterns.captures(Pattern::RustRgba, line),
            patterns.captures(Pattern::RustHsla, line),
        )
    } else {
        (empty_captures(), empty_captures(), empty_captures())
    };
    LineCaptures {
        hex_mark,
        css_rgb,
        css_hsl,
        css_var,
        color_word,
        rust_rgb,
        rust_rgba,
        rust_hsla,
    }
}

/// The matches of notation `p` in `line`, as the `regex` crate finds them.
pub open spec fn searched(line: Seq<char>) -> spec_fn(Pattern) -> Seq<Groups> {
    |p: Pattern| regex_captures(pattern_source(p), line)
}

/// The steps of the lines `lines`, first line first, each with its row number.
pub open spec fn buffer_steps(lines: Seq<Seq<char>>, kind: FileKind, vars: Map<Seq<char>, Rgb>) -> Seq<
    Step<Mark>,
>
    decreases lines.len(),
{
    if lines.len() == 0 {
        Seq::empty()
    } else {
        let row = (lines.len() - 1) as usize;
        buffer_steps(lines.drop_last(), kind, vars) + line_steps(
            lines.last(),
            row,
            kind,
            vars,
            searched(lines.last()),
        )
    }
}

/// The texts of the lines.
pub open spec fn lines_view(lines: Seq<String>) -> Seq<Seq<char>> {
    lines.map_values(|l: String| l@)
}

/// Only the notations a file kind gets are looked at: two ways of finding
/// matches that agree on those give the same steps.
proof fn lemma_line_steps_found(
    line: Seq<char>,
    row: usize,
    kind: FileKind,
    vars: Map<Seq<char>, Rgb>,
    f1: spec_fn(Pattern) -> Seq<Groups>,
    f2: spec_fn(Pattern) -> Seq<Groups>,
)
    requires
        f1(Pattern::HexMark) == f2(Pattern::HexMark),
        kind.css ==> f1(Pattern::CssRgb) == f2(Pattern::CssRgb) && f1(Pattern::CssHsl) == f2(
            Pattern::CssHsl,
        ) && f1(Pattern::CssVar) == f2(Pattern::CssVar) && f1(Pattern::ColorWord) == f2(
            Pattern::ColorWord,
        ),
        kind.rust ==> f1(Pattern::RustRgb) == f2(Pattern::RustRgb) && f1(Pattern::RustRgba) == f2(
            Pattern::RustRgba,
        ) && f1(Pattern::RustHsla) == f2(Pattern::RustHsla),
    ensures
        line_steps(line, row, kind, vars, f1) == line_steps(line, row, kind, vars, f2),
{
}

/// Scans the lines of a buffer of file type `filetype` for colour notations,
/// with custom properties `vars`: the marks of every line, first line first,
/// up to the first match that cannot be read: exactly the scan that
/// [`buffer_steps`] describes.
pub fn scan_buffer(patterns: &Patterns, lines: &Vec<String>, filetype: &str, vars: &CssVars) -> (res:
    Scan<Mark>)
    ensures
        res@ == run_steps(
            fresh::<Mark>(),
            buffer_steps(lines_view(lines@), spec_filetype_kind(filetype@), vars@),
        ),
        res.halt != Some(Halt::MisplacedGroup),
{
    let kind = filetype_kind(filetype);
    let ghost views = lines_view(lines@);
    let mut scan = Scan::new();
    let mut row: usize = 0;
    while row < lines.len()
        invariant
            0 <= row <= lines@.len(),
            views == lines_view(lines@),
            kind == spec_filetype_kind(filetype@),
            scan.halt != Some(Halt::MisplacedGroup),
            scan@ == run_steps(
                fresh::<Mark>(),
                buffer_steps(views.take(row as int), kind, vars@),
            ),
        decreases lines.len() - row,
    {
        let ghost before = scan@;
        let line = lines[row].as_str();
        let ghost steps = line_steps(line@, row, kind, vars@, searched(line@));
        proof {
            assert(views.take(row + 1).drop_last() =~= views.take(row as int));
            assert(views.take(row + 1).last() == line@);
        }
        if scan.halt.is_none() {
            let caps = line_captures(patterns, line, kind);
            extend_with_line(&mut scan, line, row, kind, vars, &caps);
            proof {
                lemma_line_steps_found(
                    line@,
                    row,
                    kind,
                    vars@,
                    |p: Pattern| caps.found(p),
                    searched(line@),
                );
                lemma_run_concat(
                    fresh::<Mark>(),
                    buffer_steps(views.take(row as int), kind, vars@),
                    steps,
                );
            }
        } else {
            proof {
                lemma_run_halted(before, steps);
                lemma_run_concat(
                    fresh::<Mark>(),
                    buffer_steps(views.take(row as int), kind, vars@),
                    steps,
                );
            }
        }
        row = row + 1;
    }
    assert(views.take(lines@.len() as int) =~= views);
    scan
}

} // verus!
