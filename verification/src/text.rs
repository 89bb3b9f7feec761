//! Small facts and operations on string slices, stated over their UTF-8 bytes.

use vstd::prelude::*;
use vstd::string::*;
use vstd::utf8::*;

verus! {

broadcast use {encode_utf8_valid_utf8, encode_utf8_decode_utf8};

/// The characters that the bytes `b[start..end]` of a UTF-8 text encode.
pub open spec fn decoded(b: Seq<u8>, start: int, end: int) -> Seq<char> {
    decode_utf8(b.subrange(start, end))
}

/// `start..end` is a range of `b` that begins and ends on character boundaries.
pub open spec fn is_char_range(b: Seq<u8>, start: int, end: int) -> bool {
    &&& 0 <= start <= end <= b.len()
    &&& is_char_boundary(b, start)
    &&& is_char_boundary(b, end)
}

/// A string slice is determined by its bytes.
pub proof fn lemma_view_from_bytes(s: &str)
    ensures
        s@ == decode_utf8(s.spec_bytes()),
{
}

/// Two string slices hold the same characters exactly when they hold the same bytes.
pub proof fn lemma_same_bytes_same_chars(a: &str, b: &str)
    ensures
        (a@ == b@) <==> (a.spec_bytes() == b.spec_bytes()),
{
    lemma_view_from_bytes(a);
    lemma_view_from_bytes(b);
}

/// Whether `a` and `b` hold the same text.
pub fn str_equals(a: &str, b: &str) -> (res: bool)
    ensures
        res == (a@ == b@),
{
    proof {
        lemma_same_bytes_same_chars(a, b);
    }
    let x = a.as_bytes();
    let y = b.as_bytes();
    if x.len() != y.len() {
        return false;
    }
    let mut i: usize = 0;
    while i < x.len()
        invariant
            x@ == a.spec_bytes(),
            y@ == b.spec_bytes(),
            (a@ == b@) <==> (a.spec_bytes() == b.spec_bytes()),
            x.len() == y.len(),
            0 <= i <= x.len(),
            forall|k: int| 0 <= k < i ==> x@[k] == y@[k],
        decreases x.len() - i,
    {
        if x[i] != y[i] {
            assert(x@[i as int] != y@[i as int]);
            return false;
        }
        i = i + 1;
    }
    assert(x@ =~= y@);
    true
}

/// A cut of a valid UTF-8 text at a character boundary leaves a character
/// boundary at every offset that was one before the cut.
pub proof fn lemma_boundary_in_prefix(b: Seq<u8>, start: int, end: int)
    requires
        valid_utf8(b),
        is_char_range(b, start, end),
    ensures
        valid_utf8(b.subrange(0, end)),
        is_char_boundary(b.subrange(0, end), start),
{
    broadcast use valid_utf8_split, is_char_boundary_start_end_of_seq,
        is_char_boundary_iff_not_is_continuation_byte;

    let p = b.subrange(0, end);
    assert(valid_utf8(p));
    if start < end {
        assert(is_char_boundary(b, start) <==> !is_continuation_byte(b[start]));
        assert(p[start] == b[start]);
        assert(is_char_boundary(p, start) <==> !is_continuation_byte(p[start]));
    } else {
        assert(p.len() == end);
    }
}

/// In a valid UTF-8 text, the offset just after an ASCII byte that starts a
/// character is again a character boundary.
pub proof fn lemma_boundary_after_ascii(b: Seq<u8>, i: int)
    requires
        valid_utf8(b),
        0 <= i < b.len(),
        is_char_boundary(b, i),
        b[i] < 0x80,
    ensures
        is_char_boundary(b, i + 1),
{
    broadcast use valid_utf8_split, is_char_boundary_start_end_of_seq,
        is_char_boundary_iff_not_is_continuation_byte;

    if i + 1 < b.len() {
        let t = b.subrange(i, b.len() as int);
        assert(valid_utf8(t));
        assert(t[0] == b[i]);
        assert(length_of_first_scalar(t) == 1);
        let rest = pop_first_scalar(t);
        assert(rest =~= b.subrange(i + 1, b.len() as int));
        assert(valid_utf8(rest));
        assert(rest.len() > 0);
        assert(valid_first_scalar(rest));
        assert(rest[0] == b[i + 1]);
        assert(!is_continuation_byte(b[i + 1]));
    }
}

/// An offset of a valid UTF-8 text that holds an ASCII byte is a character boundary.
pub proof fn lemma_boundary_at_ascii(b: Seq<u8>, i: int)
    requires
        valid_utf8(b),
        0 <= i < b.len(),
        b[i] < 0x80,
    ensures
        is_char_boundary(b, i),
{
    broadcast use is_char_boundary_iff_not_is_continuation_byte;

    assert(!is_continuation_byte(b[i]));
}

/// The slice `s[start..end]`.
pub fn substring(s: &str, start: usize, end: usize) -> (res: &str)
    requires
        is_char_range(s.spec_bytes(), start as int, end as int),
    ensures
        res.spec_bytes() == s.spec_bytes().subrange(start as int, end as int),
        res@ == decoded(s.spec_bytes(), start as int, end as int),
{
    proof {
        lemma_boundary_in_prefix(s.spec_bytes(), start as int, end as int);
    }
    let (head, _) = s.split_at(end);
    let (_, tail) = head.split_at(start);
    proof {
        lemma_view_from_bytes(tail);
        assert(tail.spec_bytes() =~= s.spec_bytes().subrange(start as int, end as int));
    }
    tail
}

/// The lower-case form of `s`, as `str::to_lowercase` gives it (the Unicode
/// lower-case mapping of each character).
pub uninterp spec fn str_lowercase(s: Seq<char>) -> Seq<char>;

/// Every character of `s` is ASCII.
pub open spec fn is_ascii_chars(s: Seq<char>) -> bool {
    forall|i: int| 0 <= i < s.len() ==> s[i] <= '\u{7f}'
}

/// The ASCII lower-case form of `c`: `A` to `Z` become `a` to `z`, any other
/// character stays as it is.
pub open spec fn ascii_lower_char(c: char) -> char {
    if 'A' <= c <= 'Z' {
        ((c as int) + 32) as char
    } else {
        c
    }
}

/// `s` with each character in its ASCII lower-case form.
pub open spec fn ascii_lowercase(s: Seq<char>) -> Seq<char> {
    s.map_values(|c: char| ascii_lower_char(c))
}

/// The lower-case form of `s` that `str::to_lowercase` gives: written out
/// where `s` is all ASCII, [`str_lowercase`] otherwise.
pub open spec fn lowercase_of(s: Seq<char>) -> Seq<char> {
    if is_ascii_chars(s) {
        ascii_lowercase(s)
    } else {
        str_lowercase(s)
    }
}

/// `str::to_lowercase`. Claimed: its result is [`str_lowercase`] of `s`, and
/// for an all-ASCII `s` it is `s` with `A` to `Z` turned into `a` to `z`
/// (the Unicode lower-case mapping leaves every other ASCII character as it
/// is, and maps no ASCII character to more than one).
#[verifier::external_body]
pub(crate) fn to_lowercase(s: &str) -> (res: String)
    ensures
        res@ == str_lowercase(s@),
        is_ascii_chars(s@) ==> res@ == ascii_lowercase(s@),
{
    s.to_lowercase()
}

/// `c` has the Unicode `White_Space` property (PropList.txt: U+0009..U+000D,
/// U+0020, U+0085, U+00A0, U+1680, U+2000..U+200A, U+2028, U+2029, U+202F,
/// U+205F, U+3000), which is what `char::is_whitespace` tests.
pub open spec fn is_white_space(c: char) -> bool {
    ||| '\u{9}' <= c <= '\u{d}'
    ||| c == ' '
    ||| c == '\u{85}'
    ||| c == '\u{a0}'
    ||| c == '\u{1680}'
    ||| '\u{2000}' <= c <= '\u{200a}'
    ||| c == '\u{2028}'
    ||| c == '\u{2029}'
    ||| c == '\u{202f}'
    ||| c == '\u{205f}'
    ||| c == '\u{3000}'
}

/// `s` without its leading white space.
pub open spec fn trim_start_chars(s: Seq<char>) -> Seq<char>
    decreases s.len(),
{
    if s.len() > 0 && is_white_space(s[0]) {
        trim_start_chars(s.drop_first())
    } else {
        s
    }
}

/// `s` without its trailing white space.
pub open spec fn trim_end_chars(s: Seq<char>) -> Seq<char>
    decreases s.len(),
{
    if s.len() > 0 && is_white_space(s.last()) {
        trim_end_chars(s.drop_last())
    } else {
        s
    }
}

/// `s` with leading and trailing white space removed.
pub open spec fn spec_trim(s: Seq<char>) -> Seq<char> {
    trim_end_chars(trim_start_chars(s))
}

/// `str::trim`, which removes the leading and trailing characters for which
/// `char::is_whitespace` holds. Claimed: the result is [`spec_trim`] of `s`.
#[verifier::external_body]
pub(crate) fn trim(s: &str) -> (res: &str)
    ensures
        res@ == spec_trim(s@),
{
    s.trim()
}

} // verus!
