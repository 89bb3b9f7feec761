//! The pattern searches this library makes, through the `regex` crate.
//!
//! What a search finds is given a name ([`regex_captures`]) rather than a
//! definition: the library states its own results over that name, and relies
//! only on the few facts about match offsets that `regex` documents.

use vstd::prelude::*;
use vstd::string::*;
use vstd::utf8::*;

use crate::text::is_char_range;

verus! {

/// `regex::Regex`, a compiled regular expression, held opaque.
#[verifier::external_type_specification]
#[verifier::external_body]
pub struct ExRegex(regex::Regex);

/// `regex::Error`, why a pattern did not compile, held opaque.
#[verifier::external_type_specification]
#[verifier::external_body]
pub struct ExRegexError(regex::Error);

/// One match of a pattern: for each capture group, in the order of its opening
/// parenthesis (group 0 is the whole match), the byte range it matched, or
/// `None` when the group took no part in the match.
pub type Groups = Seq<Option<(usize, usize)>>;

/// The successive non-overlapping matches, leftmost first, of the regular
/// expression `pattern` in `haystack`, as the `regex` crate finds them
/// (`Regex::captures_iter`), each given by its capture groups.
pub uninterp spec fn regex_captures(pattern: Seq<char>, haystack: Seq<char>) -> Seq<Groups>;

/// The views of a list of executable capture lists.
pub open spec fn captures_view(v: Seq<Vec<Option<(usize, usize)>>>) -> Seq<Groups> {
    v.map_values(|g: Vec<Option<(usize, usize)>>| g@)
}

/// A group that took part lies between character boundaries of `b`.
pub open spec fn group_placed(group: Option<(usize, usize)>, b: Seq<u8>) -> bool {
    match group {
        Some((start, end)) => is_char_range(b, start as int, end as int),
        None => true,
    }
}

/// Every match has group 0, and every group that took part lies between
/// character boundaries of the haystack (`regex` documents both: `Captures::get(0)`
/// is never `None`, and `Match::start() <= Match::end()` always fall on UTF-8
/// boundaries of the haystack searched).
pub open spec fn captures_well_placed(caps: Seq<Groups>, haystack: Seq<char>) -> bool {
    forall|i: int|
        #![trigger caps[i]]
        0 <= i < caps.len() ==> {
            &&& caps[i].len() > 0
            &&& caps[i][0] is Some
            &&& forall|j: int|
                #![trigger caps[i][j]]
                0 <= j < caps[i].len() ==> group_placed(caps[i][j], encode_utf8(haystack))
        }
}

/// The pattern a compiled regular expression was built from: what
/// `regex::Regex::as_str` gives back for it.
pub uninterp spec fn regex_source(re: regex::Regex) -> Seq<char>;

/// `regex::Regex::new`: compiles `pattern`. Claimed: a regex it returns was
/// built from `pattern` (its `as_str` is `pattern`, as `regex` documents).
/// Which patterns compile is not stated: `regex` refuses a pattern whose
/// compiled form exceeds a size limit, and that size depends on the target's
/// pointer width, so the answer is not a function of the pattern alone.
#[verifier::external_body]
pub(crate) fn compile_pattern(pattern: &str) -> (res: Result<regex::Regex, regex::Error>)
    ensures
        res matches Ok(re) ==> regex_source(re) == pattern@,
{
    regex::Regex::new(pattern)
}

/// `regex::Regex::captures_iter` on `haystack`, each match turned into the byte
/// ranges of its groups (`Captures::iter`, `Match::start`, `Match::end`).
/// Claimed: the matches are [`regex_captures`] of the pattern the regex was
/// built from and of the haystack, and they are well placed in the haystack as
/// `regex` documents. The first claim holds of a regex built by
/// `regex::Regex::new` with default options, as every regex of this library is
/// (a `RegexBuilder` with other options gives the same `as_str` and other
/// matches).
#[verifier::external_body]
pub(crate) fn captures_of(re: &regex::Regex, haystack: &str) -> (res: Vec<
    Vec<Option<(usize, usize)>>,
>)
    ensures
        captures_view(res@) == regex_captures(regex_source(*re), haystack@),
        captures_well_placed(captures_view(res@), haystack@),
{
    re.captures_iter(haystack).map(
        |caps| caps.iter().map(|group| group.map(|m| (m.start(), m.end()))).collect(),
    ).collect()
}

} // verus!
