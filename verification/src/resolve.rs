//! Reading a whole property value as a colour, and finding the CSS custom
//! properties (`--name: value;`) of a style sheet that hold colours.

use vstd::prelude::*;
use vstd::string::*;
use vstd::utf8::*;

use crate::hex::{parse_hex, parse_hex_panics, parse_hex_would_panic, spec_parse_hex};
use crate::marks::{group_at, groups_placed, Paint};
use crate::matching::{captures_view, captures_well_placed, regex_captures, Groups};
use crate::named::{named_color, named_color_lookup};
use crate::patterns::{pattern_source, Pattern, Patterns};
use crate::steps::{fresh, lemma_run_take_next, run_steps, Halt, Scan, Step};
use crate::text::{decoded, lowercase_of, spec_trim, substring, to_lowercase, trim};
use crate::units::{component_at, hue_at, spec_component, spec_hue};

verus! {

broadcast use {encode_utf8_valid_utf8, encode_utf8_decode_utf8};

/// The colour a property value denotes, given the matches in it of a `#`
/// code (`hex`), of CSS `rgb()` (`rgb`) and of CSS `hsl()` (`hsl`): the first
/// notation that occurs decides, by its first match; a value with none of
/// them denotes the colour keyword it is, in any case. `Err` where reading the
/// deciding match would fail.
pub open spec fn resolve_from(value: Seq<char>, hex: Seq<Groups>, rgb: Seq<Groups>, hsl: Seq<Groups>) -> Result<
    Option<Paint>,
    Halt,
> {
    let b = encode_utf8(value);
    if hex.len() > 0 {
        let g = hex[0];
        if !groups_placed(g, b) {
            Err(Halt::MisplacedGroup)
        } else {
            match group_at(g, 1) {
                None => Err(Halt::Panicked),
                Some(d) => {
                    let h = b.subrange(d.0 as int, d.1 as int);
                    if parse_hex_panics(h) {
                        Err(Halt::Panicked)
                    } else {
                        match spec_parse_hex(h) {
                            Some(c) => Ok(Some(Paint::Solid(c))),
                            None => Ok(None),
                        }
                    }
                },
            }
        }
    } else if rgb.len() > 0 {
        let g = rgb[0];
        if !groups_placed(g, b) {
            Err(Halt::MisplacedGroup)
        } else {
            match (group_at(g, 1), group_at(g, 2), group_at(g, 3)) {
                (Some(r), Some(gr), Some(bl)) => Ok(
                    Some(
                        Paint::CssRgb(
                            spec_component(b, r.0 as int, r.1 as int),
                            spec_component(b, gr.0 as int, gr.1 as int),
                            spec_component(b, bl.0 as int, bl.1 as int),
                        ),
                    ),
                ),
                _ => Err(Halt::Panicked),
            }
        }
    } else if hsl.len() > 0 {
        let g = hsl[0];
        if !groups_placed(g, b) {
            Err(Halt::MisplacedGroup)
        } else {
            match (group_at(g, 1), group_at(g, 2), group_at(g, 3)) {
                (Some(h), Some(s), Some(l)) => Ok(
                    Some(
                        Paint::CssHsl(
                            spec_hue(b, h.0 as int, h.1 as int),
                            spec_component(b, s.0 as int, s.1 as int),
                            spec_component(b, l.0 as int, l.1 as int),
                        ),
                    ),
                ),
                _ => Err(Halt::Panicked),
            }
        }
    } else {
        match named_color(lowercase_of(value)) {
            Some(c) => Ok(Some(Paint::Solid(c))),
            None => Ok(None),
        }
    }
}

/// The colour the property value `value` denotes, its notations found by `regex`.
pub open spec fn spec_resolve(value: Seq<char>) -> Result<Option<Paint>, Halt> {
    resolve_from(
        value,
        regex_captures(pattern_source(Pattern::HexValue), value),
        regex_captures(pattern_source(Pattern::CssRgb), value),
        regex_captures(pattern_source(Pattern::CssHsl), value),
    )
}

fn groups_placed_in(value: &str, g: &Vec<Option<(usize, usize)>>) -> (res: bool)
    ensures
        res == groups_placed(g@, value.spec_bytes()),
{
    crate::marks::groups_placed_exec(value, g)
}

fn group_of(g: &Vec<Option<(usize, usize)>>, j: usize) -> (res: Option<(usize, usize)>)
    ensures
        res == group_at(g@, j as int),
{
    if j < g.len() {
        g[j]
    } else {
        None
    }
}

/// The colour the property value `value` denotes, given the matches found in
/// it of each notation (see [`resolve_from`]).
pub fn resolve_from_captures(
    value: &str,
    hex: &Vec<Vec<Option<(usize, usize)>>>,
    rgb: &Vec<Vec<Option<(usize, usize)>>>,
    hsl: &Vec<Vec<Option<(usize, usize)>>>,
) -> (res: Result<Option<Paint>, Halt>)
    ensures
        res == resolve_from(value@, captures_view(hex@), captures_view(rgb@), captures_view(hsl@)),
        captures_well_placed(captures_view(hex@), value@) && captures_well_placed(
            captures_view(rgb@),
            value@,
        ) && captures_well_placed(captures_view(hsl@), value@) ==> res != Err::<
            Option<Paint>,
            Halt,
        >(Halt::MisplacedGroup),
{
    let ghost b = value.spec_bytes();
    if hex.len() > 0 {
        let g = &hex[0];
        if !groups_placed_in(value, g) {
            return Err(Halt::MisplacedGroup);
        }
        match group_of(g, 1) {
            None => Err(Halt::Panicked),
            Some(d) => {
                assert(crate::matching::group_placed(g@[1], b));
                let h = substring(value, d.0, d.1);
                if parse_hex_would_panic(h) {
                    return Err(Halt::Panicked);
                }
                match parse_hex(h) {
                    Some(c) => Ok(Some(Paint::Solid(c))),
                    None => Ok(None),
                }
            },
        }
    } else if rgb.len() > 0 {
        let g = &rgb[0];
        if !groups_placed_in(value, g) {
            return Err(Halt::MisplacedGroup);
        }
        match (group_of(g, 1), group_of(g, 2), group_of(g, 3)) {
            (Some(r), Some(gr), Some(bl)) => {
                assert(crate::matching::group_placed(g@[1], b));
                assert(crate::matching::group_placed(g@[2], b));
                assert(crate::matching::group_placed(g@[3], b));
                Ok(
                    Some(
                        Paint::CssRgb(
                            component_at(value, r.0, r.1),
                            component_at(value, gr.0, gr.1),
                            component_at(value, bl.0, bl.1),
                        ),
                    ),
                )
            },
            _ => Err(Halt::Panicked),
        }
    } else if hsl.len() > 0 {
        let g = &hsl[0];
        if !groups_placed_in(value, g) {
            return Err(Halt::MisplacedGroup);
        }
        match (group_of(g, 1), group_of(g, 2), group_of(g, 3)) {
            (Some(h), Some(s), Some(l)) => {
                assert(crate::matching::group_placed(g@[1], b));
                assert(crate::matching::group_placed(g@[2], b));
                assert(crate::matching::group_placed(g@[3], b));
                Ok(
                    Some(
                        Paint::CssHsl(
                            hue_at(value, h.0, h.1),
                            component_at(value, s.0, s.1),
                            component_at(value, l.0, l.1),
                        ),
                    ),
                )
            },
            _ => Err(Halt::Panicked),
        }
    } else {
        let lower = to_lowercase(value);
        match named_color_lookup(lower.as_str()) {
            Some(c) => Ok(Some(Paint::Solid(c))),
            None => Ok(None),
        }
    }
}

/// The colour the property value `value` denotes: [`spec_resolve`].
pub fn resolve_color(patterns: &Patterns, value: &str) -> (res: Result<Option<Paint>, Halt>)
    ensures
        res == spec_resolve(value@),
        res != Err::<Option<Paint>, Halt>(Halt::MisplacedGroup),
{
    let hex = patterns.captures(Pattern::HexValue, value);
    let rgb = patterns.captures(Pattern::CssRgb, value);
    let hsl = patterns.captures(Pattern::CssHsl, value);
    resolve_from_captures(value, &hex, &rgb, &hsl)
}

/// A custom property that holds a colour: its name, its value with the
/// surrounding white space removed, and how that value's colour is obtained
/// (ranges in the paint are byte offsets into `value`).
#[derive(Debug, PartialEq, Eq)]
pub struct Definition {
    pub name: String,
    pub value: String,
    pub paint: Paint,
}

impl View for Definition {
    type V = (Seq<char>, Seq<char>, Paint);

    open spec fn view(&self) -> (Seq<char>, Seq<char>, Paint) {
        (self.name@, self.value@, self.paint)
    }
}

/// The trimmed value of the definition match `g` in `content`.
pub open spec fn definition_value(content: Seq<char>, g: Groups) -> Seq<char> {
    let v = match group_at(g, 2) {
        Some(v) => v,
        None => (0usize, 0usize),
    };
    spec_trim(decoded(encode_utf8(content), v.0 as int, v.1 as int))
}

/// What one match `g` of a custom property definition in `content`
/// contributes, `resolved` being what its trimmed value denotes: its name and
/// value if that is a colour.
pub open spec fn definition_step_from(
    content: Seq<char>,
    g: Groups,
    resolved: Result<Option<Paint>, Halt>,
) -> Step<(Seq<char>, Seq<char>, Paint)> {
    let b = encode_utf8(content);
    if !groups_placed(g, b) {
        Step::Stop(Halt::MisplacedGroup)
    } else {
        match (group_at(g, 1), group_at(g, 2)) {
            (Some(n), Some(_)) => match resolved {
                Err(h) => Step::Stop(h),
                Ok(None) => Step::Skip,
                Ok(Some(p)) => Step::Emit(
                    (decoded(b, n.0 as int, n.1 as int), definition_value(content, g), p),
                ),
            },
            _ => Step::Stop(Halt::Panicked),
        }
    }
}

/// What one match `g` of a custom property definition in `content`
/// contributes, its value read by `regex`.
pub open spec fn definition_step(content: Seq<char>, g: Groups) -> Step<(Seq<char>, Seq<char>, Paint)> {
    definition_step_from(content, g, spec_resolve(definition_value(content, g)))
}

/// The view of a step of a definition scan.
pub open spec fn step_view(s: Step<Definition>) -> Step<(Seq<char>, Seq<char>, Paint)> {
    match s {
        Step::Skip => Step::Skip,
        Step::Emit(d) => Step::Emit(d@),
        Step::Stop(h) => Step::Stop(h),
    }
}

/// The trimmed value of the definition match `g` in `content`, `None` when
/// the match is not placed as `regex` places matches or has no value group.
pub fn definition_value_of<'a>(content: &'a str, g: &Vec<Option<(usize, usize)>>) -> (res: Option<
    &'a str,
>)
    ensures
        res matches Some(v) ==> v@ == definition_value(content@, g@),
        res is None <==> !groups_placed(g@, content.spec_bytes()) || group_at(g@, 2) is None,
{
    if !groups_placed_in(content, g) {
        return None;
    }
    match group_of(g, 2) {
        Some(v) => {
            assert(crate::matching::group_placed(g@[2], content.spec_bytes()));
            Some(trim(substring(content, v.0, v.1)))
        },
        None => None,
    }
}

/// What the definition match `g` in `content` contributes, `resolved` being
/// what its trimmed value denotes.
pub fn definition_from_groups(
    content: &str,
    g: &Vec<Option<(usize, usize)>>,
    resolved: Result<Option<Paint>, Halt>,
) -> (res: Step<Definition>)
    ensures
        step_view(res) == definition_step_from(content@, g@, resolved),
{
    let ghost b = content.spec_bytes();
    if !groups_placed_in(content, g) {
        return Step::Stop(Halt::MisplacedGroup);
    }
    match (group_of(g, 1), group_of(g, 2)) {
        (Some(n), Some(v)) => {
            assert(crate::matching::group_placed(g@[1], b));
            assert(crate::matching::group_placed(g@[2], b));
            match resolved {
                Err(h) => Step::Stop(h),
                Ok(None) => Step::Skip,
                Ok(Some(p)) => {
                    let name = substring(content, n.0, n.1);
                    let value = trim(substring(content, v.0, v.1));
                    Step::Emit(Definition { name: name.to_owned(), value: value.to_owned(), paint: p })
                },
            }
        },
        _ => Step::Stop(Halt::Panicked),
    }
}

/// The steps of every custom property definition found in `content`.
pub open spec fn definition_steps(content: Seq<char>) -> Seq<Step<(Seq<char>, Seq<char>, Paint)>> {
    let caps = regex_captures(pattern_source(Pattern::VarDef), content);
    Seq::new(caps.len(), |i: int| definition_step(content, caps[i]))
}

/// A scan for definitions, seen through the views of what it found.
pub open spec fn definitions_view(s: Scan<Definition>) -> (
    Seq<(Seq<char>, Seq<char>, Paint)>,
    Option<Halt>,
) {
    (s.found@.map_values(|d: Definition| d@), s.halt)
}

fn definition_step_exec(patterns: &Patterns, content: &str, g: &Vec<Option<(usize, usize)>>) -> (res: Step<
    Definition,
>)
    ensures
        step_view(res) == definition_step(content@, g@),
        groups_placed(g@, content.spec_bytes()) ==> res != Step::<Definition>::Stop(
            Halt::MisplacedGroup,
        ),
{
    let resolved = match definition_value_of(content, g) {
        Some(value) => resolve_color(patterns, value),
        None => Ok(None),
    };
    definition_from_groups(content, g, resolved)
}

/// The custom properties of the style sheet `content` that hold colours, in
/// order of appearance, up to the first definition that cannot be read:
/// exactly the scan [`definition_steps`] describes.
pub fn collect_definitions(patterns: &Patterns, content: &str) -> (res: Scan<Definition>)
    ensures
        definitions_view(res) == run_steps(fresh(), definition_steps(content@)),
        res.halt != Some(Halt::MisplacedGroup),
{
    let mut scan: Scan<Definition> = Scan::new();
    let caps = patterns.captures(Pattern::VarDef, content);
    let ghost steps = definition_steps(content@);
    assert(steps.len() == caps@.len());
    let mut i: usize = 0;
    while i < caps.len()
        invariant
            0 <= i <= caps@.len(),
            steps == definition_steps(content@),
            steps.len() == caps@.len(),
            captures_view(caps@) == regex_captures(pattern_source(Pattern::VarDef), content@),
            captures_well_placed(captures_view(caps@), content@),
            scan.halt != Some(Halt::MisplacedGroup),
            definitions_view(scan) == run_steps(fresh(), steps.take(i as int)),
        decreases caps.len() - i,
    {
        if scan.halt.is_none() {
            let step = definition_step_exec(patterns, content, &caps[i]);
            assert(caps@[i as int]@ == captures_view(caps@)[i as int]);
            proof {
                lemma_run_take_next(fresh(), steps, i as int);
            }
            let ghost prev = definitions_view(scan);
            match step {
                Step::Skip => {},
                Step::Emit(d) => {
                    let ghost dv = d@;
                    scan.found.push(d);
                    assert(definitions_view(scan).0 =~= prev.0.push(dv));
                },
                Step::Stop(h) => {
                    scan.halt = Some(h);
                },
            }
        } else {
            proof {
                lemma_run_take_next(fresh(), steps, i as int);
            }
        }
        i = i + 1;
    }
    assert(steps.take(caps@.len() as int) =~= steps);
    scan
}

} // verus!
