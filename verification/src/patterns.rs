//! The regular expressions that find colour notations, compiled once.

use vstd::prelude::*;

use crate::matching::{
    captures_of,
    captures_view,
    captures_well_placed,
    compile_pattern,
    regex_captures,
    regex_source,
};

verus! {

/// `#` and three to eight hex digits: a colour code in a line of text.
pub const HEX_MARK: &'static str = "#[0-9a-fA-F]{3,8}";

/// `#` and three to eight hex digits, the digits captured: a colour code as a
/// property value.
pub const HEX_VALUE: &'static str = "#([0-9a-fA-F]{3,8})";

/// CSS `rgb(...)` / `rgba(...)`, its three channels captured.
pub const CSS_RGB: &'static str = r"rgba?\(\s*([\d.%]+)\s*[, ]\s*([\d.%]+)\s*[, ]\s*([\d.%]+)(?:\s*[/,]\s*([\d.%]+))?\s*\)";

/// CSS `hsl(...)` / `hsla(...)`, hue, saturation and lightness captured.
pub const CSS_HSL: &'static str = r"hsla?\(\s*([\d.deggradturn]+)\s*[, ]\s*([\d.%]+)\s*[, ]\s*([\d.%]+)(?:\s*[/,]\s*([\d.%]+))?\s*\)";

/// CSS `var(--name)`, the name captured.
pub const CSS_VAR: &'static str = r"var\((--[\w-]+)\)";

/// A word of three or more ASCII letters, captured: a candidate colour keyword.
pub const COLOR_WORD: &'static str = r"\b([a-zA-Z]{3,})\b";

/// Rust `rgb(0xRRGGBB)`, the six digits captured.
pub const RUST_RGB: &'static str = r"rgb\(\s*0x([0-9a-fA-F]{6})\s*\)";

/// Rust `rgba(0xRRGGBBAA)`, the eight digits captured.
pub const RUST_RGBA: &'static str = r"rgba\(\s*0x([0-9a-fA-F]{8})\s*\)";

/// Rust `hsla(h, s, l, a)` with four decimal literals, each captured.
pub const RUST_HSLA: &'static str = r"hsla\(\s*([0-9.]+)\s*,\s*([0-9.]+)\s*,\s*([0-9.]+)\s*,\s*([0-9.]+)\s*\)";

/// A CSS custom property definition `--name: value`, name and value captured.
pub const VAR_DEF: &'static str = r"(--[\w-]+):\s*([^;!]+)(?:[! ]|;|\s|$)";

/// The notations searched for.
#[derive(Clone, Copy, Debug, PartialEq, Eq, Structural)]
pub enum Pattern {
    HexMark,
    HexValue,
    CssRgb,
    CssHsl,
    CssVar,
    ColorWord,
    RustRgb,
    RustRgba,
    RustHsla,
    VarDef,
}

/// The regular expression of each notation.
pub open spec fn pattern_source(p: Pattern) -> Seq<char> {
    match p {
        Pattern::HexMark => HEX_MARK@,
        Pattern::HexValue => HEX_VALUE@,
        Pattern::CssRgb => CSS_RGB@,
        Pattern::CssHsl => CSS_HSL@,
        Pattern::CssVar => CSS_VAR@,
        Pattern::ColorWord => COLOR_WORD@,
        Pattern::RustRgb => RUST_RGB@,
        Pattern::RustRgba => RUST_RGBA@,
        Pattern::RustHsla => RUST_HSLA@,
        Pattern::VarDef => VAR_DEF@,
    }
}

/// The regular expression of `p`.
pub fn source_of(p: Pattern) -> (res: &'static str)
    ensures
        res@ == pattern_source(p),
{
    match p {
        Pattern::HexMark => HEX_MARK,
        Pattern::HexValue => HEX_VALUE,
        Pattern::CssRgb => CSS_RGB,
        Pattern::CssHsl => CSS_HSL,
        Pattern::CssVar => CSS_VAR,
        Pattern::ColorWord => COLOR_WORD,
        Pattern::RustRgb => RUST_RGB,
        Pattern::RustRgba => RUST_RGBA,
        Pattern::RustHsla => RUST_HSLA,
        Pattern::VarDef => VAR_DEF,
    }
}

/// A notation's regular expression did not compile.
#[derive(Clone, Copy, Debug, PartialEq, Eq, Structural)]
pub struct PatternError {
    pub pattern: Pattern,
}

/// All notations, compiled.
pub struct Patterns {
    hex_mark: regex::Regex,
    hex_value: regex::Regex,
    css_rgb: regex::Regex,
    css_hsl: regex::Regex,
    css_var: regex::Regex,
    color_word: regex::Regex,
    rust_rgb: regex::Regex,
    rust_rgba: regex::Regex,
    rust_hsla: regex::Regex,
    var_def: regex::Regex,
}

/// Compiles the expression of `p`; whether it compiles is left to `regex`.
fn compile(p: Pattern) -> (res: Result<regex::Regex, PatternError>)
    ensures
        res matches Ok(re) ==> regex_source(re) == pattern_source(p),
        res matches Err(e) ==> e.pattern == p,
{
    match compile_pattern(source_of(p)) {
        Ok(re) => Ok(re),
        Err(_) => Err(PatternError { pattern: p }),
    }
}

impl Patterns {
    /// Each compiled expression was built from the expression of its notation.
    #[verifier::type_invariant]
    pub closed spec fn compiled_from_sources(self) -> bool {
        forall|p: Pattern| regex_source(#[trigger] self.held(p)) == pattern_source(p)
    }

    /// Compiles every notation; fails with the first one that does not
    /// compile (which ones compile is left to `regex`).
    pub fn new() -> (res: Result<Patterns, PatternError>)
        ensures
            res matches Ok(ps) ==> ps.compiled_from_sources(),
    {
        let hex_mark = compile(Pattern::HexMark)?;
        let hex_value = compile(Pattern::HexValue)?;
        let css_rgb = compile(Pattern::CssRgb)?;
        let css_hsl = compile(Pattern::CssHsl)?;
        let css_var = compile(Pattern::CssVar)?;
        let color_word = compile(Pattern::ColorWord)?;
        let rust_rgb = compile(Pattern::RustRgb)?;
        let rust_rgba = compile(Pattern::RustRgba)?;
        let rust_hsla = compile(Pattern::RustHsla)?;
        let var_def = compile(Pattern::VarDef)?;
        let ps = Patterns {
            hex_mark,
            hex_value,
            css_rgb,
            css_hsl,
            css_var,
            color_word,
            rust_rgb,
            rust_rgba,
            rust_hsla,
            var_def,
        };
        Ok(ps)
    }

    /// The compiled expression held for notation `p`.
    closed spec fn held(self, p: Pattern) -> regex::Regex {
        match p {
            Pattern::HexMark => self.hex_mark,
            Pattern::HexValue => self.hex_value,
            Pattern::CssRgb => self.css_rgb,
            Pattern::CssHsl => self.css_hsl,
            Pattern::CssVar => self.css_var,
            Pattern::ColorWord => self.color_word,
            Pattern::RustRgb => self.rust_rgb,
            Pattern::RustRgba => self.rust_rgba,
            Pattern::RustHsla => self.rust_hsla,
            Pattern::VarDef => self.var_def,
        }
    }

    fn regex(&self, p: Pattern) -> (res: &regex::Regex)
        ensures
            *res == self.held(p),
    {
        match p {
            Pattern::HexMark => &self.hex_mark,
            Pattern::HexValue => &self.hex_value,
            Pattern::CssRgb => &self.css_rgb,
            Pattern::CssHsl => &self.css_hsl,
            Pattern::CssVar => &self.css_var,
            Pattern::ColorWord => &self.color_word,
            Pattern::RustRgb => &self.rust_rgb,
            Pattern::RustRgba => &self.rust_rgba,
            Pattern::RustHsla => &self.rust_hsla,
            Pattern::VarDef => &self.var_def,
        }
    }

    /// The matches of notation `p` in `haystack`, leftmost first.
    pub fn captures(&self, p: Pattern, haystack: &str) -> (res: Vec<Vec<Option<(usize, usize)>>>)
        ensures
            captures_view(res@) == regex_captures(pattern_source(p), haystack@),
            captures_well_placed(captures_view(res@), haystack@),
    {
        proof {
            use_type_invariant(self);
        }
        captures_of(self.regex(p), haystack)
    }
}

} // verus!
