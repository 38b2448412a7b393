//! Scanning of character sequences: whitespace, substring search, occurrence
//! counting and lexicographic order.
//!
//! Every specification here is stated over `Seq<char>`, the view of `str` and
//! `String`. The executable functions work on a `Vec<char>` taken from the
//! string once, so that indexing is constant-time.
use vstd::prelude::*;
use vstd::string::StrSliceExecFns;

verus! {

/// The characters with the Unicode `White_Space` property.
pub open spec fn is_whitespace(c: char) -> bool {
    ||| ('\u{9}' <= c && c <= '\u{d}')
    ||| c == ' '
    ||| c == '\u{85}'
    ||| c == '\u{a0}'
    ||| c == '\u{1680}'
    ||| ('\u{2000}' <= c && c <= '\u{200a}')
    ||| c == '\u{2028}'
    ||| c == '\u{2029}'
    ||| c == '\u{202f}'
    ||| c == '\u{205f}'
    ||| c == '\u{3000}'
}

/// Whether `c` is a whitespace character.
pub fn is_whitespace_char(c: char) -> (b: bool)
    ensures
        b == is_whitespace(c),
{
    ('\u{9}' <= c && c <= '\u{d}') || c == ' ' || c == '\u{85}' || c == '\u{a0}' || c == '\u{1680}'
        || ('\u{2000}' <= c && c <= '\u{200a}') || c == '\u{2028}' || c == '\u{2029}' || c
        == '\u{202f}' || c == '\u{205f}' || c == '\u{3000}'
}

/// `needle` stands in `hay` at index `at`.
pub open spec fn occurs_at(hay: Seq<char>, needle: Seq<char>, at: int) -> bool {
    &&& 0 <= at
    &&& at + needle.len() <= hay.len()
    &&& forall|k: int| 0 <= k < needle.len() ==> hay[at + k] == #[trigger] needle[k]
}

/// `needle` stands somewhere in `hay`. The empty sequence stands in every
/// sequence.
pub open spec fn contains(hay: Seq<char>, needle: Seq<char>) -> bool {
    exists|at: int| occurs_at(hay, needle, at)
}

/// The least index at or after `from` at which `needle` stands in `hay`.
pub open spec fn first_occurrence_from(hay: Seq<char>, needle: Seq<char>, from: int) -> Option<int>
    decreases hay.len() - from,
{
    if from < 0 || from + needle.len() > hay.len() {
        None
    } else if occurs_at(hay, needle, from) {
        Some(from)
    } else {
        first_occurrence_from(hay, needle, from + 1)
    }
}

/// The least index at which `needle` stands in `hay`.
pub open spec fn first_occurrence(hay: Seq<char>, needle: Seq<char>) -> Option<int> {
    first_occurrence_from(hay, needle, 0)
}

/// The least index at or after `from` that holds `c`.
pub open spec fn index_of_char_from(s: Seq<char>, c: char, from: int) -> Option<int> {
    first_occurrence_from(s, seq![c], from)
}

/// The number of occurrences of `needle` in `hay` at or after `from`, counted
/// from left to right without overlap. Zero for an empty `needle`.
pub open spec fn count_occurrences_from(hay: Seq<char>, needle: Seq<char>, from: int) -> nat
    decreases hay.len() - from,
{
    if needle.len() == 0 || from < 0 || from + needle.len() > hay.len() {
        0
    } else if occurs_at(hay, needle, from) {
        1 + count_occurrences_from(hay, needle, from + needle.len())
    } else {
        count_occurrences_from(hay, needle, from + 1)
    }
}

/// The number of non-overlapping occurrences of `needle` in `hay`.
pub open spec fn count_occurrences(hay: Seq<char>, needle: Seq<char>) -> nat {
    count_occurrences_from(hay, needle, 0)
}

/// The first index at or after `from` that holds no whitespace character, or
/// the length of `s` where only whitespace follows.
pub open spec fn skip_whitespace(s: Seq<char>, from: int) -> int
    decreases s.len() - from,
{
    if 0 <= from < s.len() && is_whitespace(s[from]) {
        skip_whitespace(s, from + 1)
    } else {
        from
    }
}

/// The view of an optional string.
pub open spec fn option_str_view(s: Option<&str>) -> Option<Seq<char>> {
    match s {
        Some(text) => Some(text@),
        None => None,
    }
}

/// The first `n` characters of `s`, or all of it where it has fewer.
pub open spec fn leading(s: Seq<char>, n: int) -> Seq<char> {
    if s.len() <= n {
        s
    } else {
        s.take(n)
    }
}

/// The lowercase form of `s`, as `str::to_lowercase` gives it.
pub uninterp spec fn lowercase_of(s: Seq<char>) -> Seq<char>;

/// `needle_lower` stands in the lowercase form of `hay`. With a lowercase
/// `needle_lower` this is containment without regard to case.
pub open spec fn contains_ignoring_case(hay: Seq<char>, needle_lower: Seq<char>) -> bool {
    contains(lowercase_of(hay), needle_lower)
}

/// `a` comes before `b`, or equals it, in lexicographic order by code point,
/// looking only at indices from `i` on.
pub open spec fn lex_le_from(a: Seq<char>, b: Seq<char>, i: int) -> bool
    decreases a.len() - i,
{
    if i < 0 || i >= a.len() {
        true
    } else if i >= b.len() {
        false
    } else if a[i] != b[i] {
        a[i] < b[i]
    } else {
        lex_le_from(a, b, i + 1)
    }
}

/// `a` comes before `b`, or equals it, in lexicographic order by code point:
/// the order of `str`.
pub open spec fn lex_le(a: Seq<char>, b: Seq<char>) -> bool {
    lex_le_from(a, b, 0)
}

/// What `first_occurrence_from` finds is an occurrence, and the first one from
/// `from` on; where it finds none, there is none from `from` on.
pub proof fn lemma_first_occurrence_from(hay: Seq<char>, needle: Seq<char>, from: int)
    requires
        0 <= from,
    ensures
        match first_occurrence_from(hay, needle, from) {
            Some(at) => {
                &&& from <= at
                &&& occurs_at(hay, needle, at)
                &&& forall|j: int| from <= j < at ==> !occurs_at(hay, needle, j)
            },
            None => forall|j: int| from <= j ==> !occurs_at(hay, needle, j),
        },
    decreases hay.len() - from,
{
    if from + needle.len() > hay.len() {
    } else if occurs_at(hay, needle, from) {
    } else {
        lemma_first_occurrence_from(hay, needle, from + 1);
    }
}

/// A sequence contains another exactly where a first occurrence exists.
pub proof fn lemma_contains_iff_first_occurrence(hay: Seq<char>, needle: Seq<char>)
    ensures
        contains(hay, needle) <==> first_occurrence(hay, needle) is Some,
{
    lemma_first_occurrence_from(hay, needle, 0);
    if first_occurrence(hay, needle) is Some {
    }
}

/// The lexicographic order is total.
pub proof fn lemma_lex_le_total(a: Seq<char>, b: Seq<char>)
    ensures
        lex_le(a, b) || lex_le(b, a),
{
    lemma_lex_le_total_from(a, b, 0);
}

proof fn lemma_lex_le_total_from(a: Seq<char>, b: Seq<char>, i: int)
    requires
        0 <= i,
    ensures
        lex_le_from(a, b, i) || lex_le_from(b, a, i),
    decreases a.len() - i,
{
    if i < a.len() && i < b.len() && a[i] == b[i] {
        lemma_lex_le_total_from(a, b, i + 1);
    }
}

/// The characters of `s`, in order.
pub fn to_chars(s: &str) -> (v: Vec<char>)
    ensures
        v@ == s@,
{
    let mut v: Vec<char> = Vec::new();
    for c in it: s.chars()
        invariant
            v@ == it.seq().take(it.index() as int),
            it.seq() == s@,
    {
        v.push(c);
    }
    v
}

/// Whether `needle` stands in `hay` at index `at`.
pub fn matches_at(hay: &Vec<char>, needle: &Vec<char>, at: usize) -> (b: bool)
    ensures
        b == occurs_at(hay@, needle@, at as int),
{
    if needle.len() > hay.len() || at > hay.len() - needle.len() {
        return false;
    }
    let mut k: usize = 0;
    while k < needle.len()
        invariant
            k <= needle.len(),
            at + needle.len() <= hay.len(),
            forall|j: int| 0 <= j < k ==> hay@[at + j] == #[trigger] needle@[j],
        decreases needle.len() - k,
    {
        if hay[at + k] != needle[k] {
            return false;
        }
        k += 1;
    }
    true
}

/// The least index at or after `from` at which `needle` stands in `hay`.
pub fn find_from(hay: &Vec<char>, needle: &Vec<char>, from: usize) -> (r: Option<usize>)
    ensures
        match r {
            Some(at) => first_occurrence_from(hay@, needle@, from as int) == Some(at as int),
            None => first_occurrence_from(hay@, needle@, from as int) is None,
        },
        r matches Some(at) ==> from <= at && at + needle.len() <= hay.len(),
{
    if needle.len() > hay.len() {
        return None;
    }
    let last: usize = hay.len() - needle.len();
    let mut i: usize = from;
    while i <= last
        invariant
            from <= i,
            last == hay.len() - needle.len(),
            first_occurrence_from(hay@, needle@, from as int) == first_occurrence_from(
                hay@,
                needle@,
                i as int,
            ),
        decreases last + 1 - i,
    {
        if matches_at(hay, needle, i) {
            return Some(i);
        }
        i += 1;
    }
    None
}

/// Whether `needle` stands somewhere in `hay`.
pub fn contains_chars(hay: &Vec<char>, needle: &Vec<char>) -> (b: bool)
    ensures
        b == contains(hay@, needle@),
{
    proof {
        lemma_contains_iff_first_occurrence(hay@, needle@);
    }
    find_from(hay, needle, 0).is_some()
}

/// Whether `needle` stands somewhere in `hay`.
pub fn str_contains(hay: &str, needle: &str) -> (b: bool)
    ensures
        b == contains(hay@, needle@),
{
    let h = to_chars(hay);
    let n = to_chars(needle);
    contains_chars(&h, &n)
}

/// The least index at or after `from` that holds `c`.
pub fn find_char_from(s: &Vec<char>, c: char, from: usize) -> (r: Option<usize>)
    ensures
        match r {
            Some(at) => index_of_char_from(s@, c, from as int) == Some(at as int),
            None => index_of_char_from(s@, c, from as int) is None,
        },
        r matches Some(at) ==> from <= at < s.len() && s@[at as int] == c,
{
    let mut needle: Vec<char> = Vec::new();
    needle.push(c);
    let r = find_from(s, &needle, from);
    assert(r matches Some(at) ==> s@[at as int] == c) by {
        if let Some(at) = r {
            lemma_first_occurrence_from(s@, seq![c], from as int);
            assert(s@[at + 0] == seq![c][0]);
        }
    }
    r
}

/// The number of non-overlapping occurrences of `needle` in `hay`.
pub fn count_occurrences_in(hay: &Vec<char>, needle: &Vec<char>) -> (n: usize)
    ensures
        n as nat == count_occurrences(hay@, needle@),
{
    if needle.len() == 0 || needle.len() > hay.len() {
        return 0;
    }
    let last: usize = hay.len() - needle.len();
    let mut i: usize = 0;
    let mut n: usize = 0;
    while i <= last
        invariant
            needle.len() > 0,
            last == hay.len() - needle.len(),
            n <= i,
            i <= hay.len(),
            count_occurrences(hay@, needle@) == n + count_occurrences_from(
                hay@,
                needle@,
                i as int,
            ),
        decreases hay.len() - i,
    {
        if matches_at(hay, needle, i) {
            n += 1;
            i += needle.len();
        } else {
            i += 1;
        }
    }
    n
}

/// The first index at or after `from` that holds no whitespace character.
pub fn skip_whitespace_from(s: &Vec<char>, from: usize) -> (r: usize)
    ensures
        r as int == skip_whitespace(s@, from as int),
        from <= r,
        from <= s.len() ==> r <= s.len(),
{
    let mut i: usize = from;
    while i < s.len() && is_whitespace_char(s[i])
        invariant
            from <= i,
            from <= s.len() ==> i <= s.len(),
            skip_whitespace(s@, from as int) == skip_whitespace(s@, i as int),
        decreases s.len() - i,
    {
        i += 1;
    }
    i
}

/// Whether `a` comes before `b`, or equals it, in the order of `str`.
pub fn chars_lex_le(a: &Vec<char>, b: &Vec<char>) -> (r: bool)
    ensures
        r == lex_le(a@, b@),
{
    let mut i: usize = 0;
    while i < a.len()
        invariant
            i <= a.len(),
            lex_le(a@, b@) == lex_le_from(a@, b@, i as int),
        decreases a.len() - i,
    {
        if i >= b.len() {
            return false;
        }
        if a[i] != b[i] {
            return a[i] < b[i];
        }
        i += 1;
    }
    true
}

/// Whether two strings hold the same characters.
pub fn str_eq(a: &str, b: &str) -> (r: bool)
    ensures
        r == (a@ == b@),
{
    let x = to_chars(a);
    let y = to_chars(b);
    let same = x.len() == y.len() && matches_at(&x, &y, 0);
    assert(same == (x@ =~= y@));
    same
}

/// The first `n` characters of `s`, or all of it where it has fewer.
pub fn leading_chars(s: &str, n: usize) -> (r: String)
    ensures
        r@ == leading(s@, n as int),
{
    let len = s.unicode_len();
    if len <= n {
        s.to_owned()
    } else {
        s.substring_char(0, n).to_owned()
    }
}

/// Whether `needle_lower` stands in the lowercase form of `hay`.
pub fn contains_lowercased(hay: &str, needle_lower: &str) -> (b: bool)
    ensures
        b == contains_ignoring_case(hay@, needle_lower@),
{
    let lower = lowercase(hay);
    str_contains(lower.as_str(), needle_lower)
}

/// Whether `a` comes before `b`, or equals it, in the order of `str`.
pub fn str_lex_le(a: &str, b: &str) -> (r: bool)
    ensures
        r == lex_le(a@, b@),
{
    let x = to_chars(a);
    let y = to_chars(b);
    chars_lex_le(&x, &y)
}

/// `str::to_lowercase`. The contract claims no more than that the lowercase
/// form of a string is a function of its characters alone, and names it. It
/// is taken on trust.
#[verifier::external_body]
pub(crate) fn lowercase(s: &str) -> (r: String)
    ensures
        r@ == lowercase_of(s@),
{
    s.to_lowercase()
}

} // verus!
