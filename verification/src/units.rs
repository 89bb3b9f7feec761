//! The unit suffixes of CSS colour-function arguments: a channel may end in
//! `%`, a hue in `deg`, `grad`, `rad` or `turn`. Recognising the unit and
//! cutting it off is done here; reading the remaining number is left to the
//! caller.

use vstd::prelude::*;
use vstd::string::*;
use vstd::utf8::*;

use crate::text::{is_char_range, lemma_boundary_at_ascii};

verus! {

broadcast use encode_utf8_valid_utf8;

/// A channel argument (`50`, `50%`, `12.5%%`): whether it ended in `%`, and the
/// byte range of what is left once every trailing `%` is cut off.
#[derive(Clone, Copy, Debug, PartialEq, Eq, Structural)]
pub struct Component {
    pub percent: bool,
    pub start: usize,
    pub end: usize,
}

/// The unit a hue argument ended in.
#[derive(Clone, Copy, Debug, PartialEq, Eq, Structural)]
pub enum HueUnit {
    Degrees,
    Gradians,
    Radians,
    Turns,
    Unitless,
}

/// A hue argument: its unit and the byte range of what is left once every
/// trailing repetition of that unit is cut off.
#[derive(Clone, Copy, Debug, PartialEq, Eq, Structural)]
pub struct Hue {
    pub unit: HueUnit,
    pub start: usize,
    pub end: usize,
}

pub open spec fn percent_suffix() -> Seq<u8> {
    seq![0x25u8]
}

pub open spec fn deg_suffix() -> Seq<u8> {
    seq![0x64u8, 0x65u8, 0x67u8]
}

pub open spec fn grad_suffix() -> Seq<u8> {
    seq![0x67u8, 0x72u8, 0x61u8, 0x64u8]
}

pub open spec fn rad_suffix() -> Seq<u8> {
    seq![0x72u8, 0x61u8, 0x64u8]
}

pub open spec fn turn_suffix() -> Seq<u8> {
    seq![0x74u8, 0x75u8, 0x72u8, 0x6eu8]
}

/// The bytes `b[start..end]` end with `suf`.
pub open spec fn has_suffix(b: Seq<u8>, start: int, end: int, suf: Seq<u8>) -> bool {
    &&& suf.len() <= end - start
    &&& b.subrange(end - suf.len(), end) == suf
}

/// The end of `b[start..end]` once every trailing copy of `suf` is cut off.
pub open spec fn strip_suffixes(b: Seq<u8>, start: int, end: int, suf: Seq<u8>) -> int
    decreases end - start,
{
    if suf.len() > 0 && has_suffix(b, start, end, suf) {
        strip_suffixes(b, start, end - suf.len(), suf)
    } else {
        end
    }
}

/// The channel argument held in `b[start..end]`.
pub open spec fn spec_component(b: Seq<u8>, start: int, end: int) -> Component {
    if has_suffix(b, start, end, percent_suffix()) {
        Component {
            percent: true,
            start: start as usize,
            end: strip_suffixes(b, start, end, percent_suffix()) as usize,
        }
    } else {
        Component { percent: false, start: start as usize, end: end as usize }
    }
}

/// The hue argument held in `b[start..end]`; the units are tried in the
/// order `deg`, `grad`, `rad`, `turn`.
pub open spec fn spec_hue(b: Seq<u8>, start: int, end: int) -> Hue {
    if has_suffix(b, start, end, deg_suffix()) {
        Hue {
            unit: HueUnit::Degrees,
            start: start as usize,
            end: strip_suffixes(b, start, end, deg_suffix()) as usize,
        }
    } else if has_suffix(b, start, end, grad_suffix()) {
        Hue {
            unit: HueUnit::Gradians,
            start: start as usize,
            end: strip_suffixes(b, start, end, grad_suffix()) as usize,
        }
    } else if has_suffix(b, start, end, rad_suffix()) {
        Hue {
            unit: HueUnit::Radians,
            start: start as usize,
            end: strip_suffixes(b, start, end, rad_suffix()) as usize,
        }
    } else if has_suffix(b, start, end, turn_suffix()) {
        Hue {
            unit: HueUnit::Turns,
            start: start as usize,
            end: strip_suffixes(b, start, end, turn_suffix()) as usize,
        }
    } else {
        Hue { unit: HueUnit::Unitless, start: start as usize, end: end as usize }
    }
}

/// Cutting suffixes keeps the end within the range.
pub proof fn lemma_strip_bounds(b: Seq<u8>, start: int, end: int, suf: Seq<u8>)
    requires
        start <= end,
    ensures
        start <= strip_suffixes(b, start, end, suf) <= end,
    decreases end - start,
{
    if suf.len() > 0 && has_suffix(b, start, end, suf) {
        lemma_strip_bounds(b, start, end - suf.len(), suf);
    }
}

/// Cutting ASCII suffixes off a range that starts on a character boundary of a
/// valid UTF-8 text leaves a range between character boundaries.
pub proof fn lemma_strip_char_range(b: Seq<u8>, start: int, end: int, suf: Seq<u8>)
    requires
        valid_utf8(b),
        is_char_range(b, start, end),
        forall|k: int| 0 <= k < suf.len() ==> suf[k] < 0x80,
    ensures
        is_char_range(b, start, strip_suffixes(b, start, end, suf)),
    decreases end - start,
{
    if suf.len() > 0 && has_suffix(b, start, end, suf) {
        let e2 = end - suf.len();
        if e2 > start {
            assert(b[e2] == b.subrange(e2, end)[0]);
            lemma_boundary_at_ascii(b, e2);
        }
        lemma_strip_char_range(b, start, e2, suf);
    }
}

/// A channel argument read from a range between character boundaries leaves
/// its number between character boundaries.
pub proof fn lemma_component_fits(b: Seq<u8>, start: int, end: int)
    requires
        valid_utf8(b),
        is_char_range(b, start, end),
        end <= usize::MAX,
    ensures
        is_char_range(b, spec_component(b, start, end).start as int, spec_component(b, start, end).end as int),
{
    lemma_strip_bounds(b, start, end, percent_suffix());
    lemma_strip_char_range(b, start, end, percent_suffix());
}

/// A hue argument read from a range between character boundaries leaves its
/// number between character boundaries.
pub proof fn lemma_hue_fits(b: Seq<u8>, start: int, end: int)
    requires
        valid_utf8(b),
        is_char_range(b, start, end),
        end <= usize::MAX,
    ensures
        is_char_range(b, spec_hue(b, start, end).start as int, spec_hue(b, start, end).end as int),
{
    lemma_strip_bounds(b, start, end, deg_suffix());
    lemma_strip_bounds(b, start, end, grad_suffix());
    lemma_strip_bounds(b, start, end, rad_suffix());
    lemma_strip_bounds(b, start, end, turn_suffix());
    lemma_strip_char_range(b, start, end, deg_suffix());
    lemma_strip_char_range(b, start, end, grad_suffix());
    lemma_strip_char_range(b, start, end, rad_suffix());
    lemma_strip_char_range(b, start, end, turn_suffix());
}

fn has_suffix_exec(b: &[u8], start: usize, end: usize, suf: &[u8]) -> (res: bool)
    requires
        start <= end <= b@.len(),
    ensures
        res == has_suffix(b@, start as int, end as int, suf@),
{
    if suf.len() > end - start {
        return false;
    }
    let base = end - suf.len();
    let mut i: usize = 0;
    while i < suf.len()
        invariant
            base + suf@.len() == end,
            end <= b@.len(),
            0 <= i <= suf@.len(),
            forall|k: int| 0 <= k < i ==> b@[base + k] == suf@[k],
        decreases suf.len() - i,
    {
        if b[base + i] != suf[i] {
            assert(b@.subrange(base as int, end as int)[i as int] != suf@[i as int]);
            return false;
        }
        i = i + 1;
    }
    assert(b@.subrange(base as int, end as int) =~= suf@);
    true
}

fn strip_suffixes_exec(b: &[u8], start: usize, end: usize, suf: &[u8]) -> (res: usize)
    requires
        start <= end <= b@.len(),
        suf@.len() > 0,
    ensures
        res == strip_suffixes(b@, start as int, end as int, suf@),
{
    let mut e = end;
    while has_suffix_exec(b, start, e, suf)
        invariant
            start <= e <= end <= b@.len(),
            suf@.len() > 0,
            strip_suffixes(b@, start as int, e as int, suf@) == strip_suffixes(
                b@,
                start as int,
                end as int,
                suf@,
            ),
        decreases e - start,
    {
        e = e - suf.len();
    }
    e
}

/// Reads the unit of the channel argument `line[start..end]`.
pub fn component_at(line: &str, start: usize, end: usize) -> (res: Component)
    requires
        start <= end <= line.spec_bytes().len(),
    ensures
        res == spec_component(line.spec_bytes(), start as int, end as int),
        is_char_range(line.spec_bytes(), start as int, end as int) ==> is_char_range(
            line.spec_bytes(),
            res.start as int,
            res.end as int,
        ),
{
    let b = line.as_bytes();
    let pct: [u8; 1] = [0x25];
    assert(pct@ =~= percent_suffix());
    proof {
        lemma_strip_bounds(b@, start as int, end as int, percent_suffix());
        if is_char_range(b@, start as int, end as int) {
            lemma_strip_char_range(b@, start as int, end as int, percent_suffix());
        }
    }
    if has_suffix_exec(b, start, end, &pct) {
        let e = strip_suffixes_exec(b, start, end, &pct);
        Component { percent: true, start, end: e }
    } else {
        Component { percent: false, start, end }
    }
}

/// Reads the unit of the hue argument `line[start..end]`.
pub fn hue_at(line: &str, start: usize, end: usize) -> (res: Hue)
    requires
        start <= end <= line.spec_bytes().len(),
    ensures
        res == spec_hue(line.spec_bytes(), start as int, end as int),
        is_char_range(line.spec_bytes(), start as int, end as int) ==> is_char_range(
            line.spec_bytes(),
            res.start as int,
            res.end as int,
        ),
{
    let b = line.as_bytes();
    let deg: [u8; 3] = [0x64, 0x65, 0x67];
    let grad: [u8; 4] = [0x67, 0x72, 0x61, 0x64];
    let rad: [u8; 3] = [0x72, 0x61, 0x64];
    let turn: [u8; 4] = [0x74, 0x75, 0x72, 0x6e];
    assert(deg@ =~= deg_suffix());
    assert(grad@ =~= grad_suffix());
    assert(rad@ =~= rad_suffix());
    assert(turn@ =~= turn_suffix());
    proof {
        let bs = b@;
        let (s, e) = (start as int, end as int);
        lemma_strip_bounds(bs, s, e, deg_suffix());
        lemma_strip_bounds(bs, s, e, grad_suffix());
        lemma_strip_bounds(bs, s, e, rad_suffix());
        lemma_strip_bounds(bs, s, e, turn_suffix());
        if is_char_range(bs, s, e) {
            lemma_strip_char_range(bs, s, e, deg_suffix());
            lemma_strip_char_range(bs, s, e, grad_suffix());
            lemma_strip_char_range(bs, s, e, rad_suffix());
            lemma_strip_char_range(bs, s, e, turn_suffix());
        }
    }
    if has_suffix_exec(b, start, end, &deg) {
        Hue { unit: HueUnit::Degrees, start, end: strip_suffixes_exec(b, start, end, &deg) }
    } else if has_suffix_exec(b, start, end, &grad) {
        Hue { unit: HueUnit::Gradians, start, end: strip_suffixes_exec(b, start, end, &grad) }
    } else if has_suffix_exec(b, start, end, &rad) {
        Hue { unit: HueUnit::Radians, start, end: strip_suffixes_exec(b, start, end, &rad) }
    } else if has_suffix_exec(b, start, end, &turn) {
        Hue { unit: HueUnit::Turns, start, end: strip_suffixes_exec(b, start, end, &turn) }
    } else {
        Hue { unit: HueUnit::Unitless, start, end }
    }
}

} // verus!
