//! Display title of a session, taken from the raw text of its document by a
//! substring scan: the first quoted value after the first occurrence of a
//! literal key. No structural parse is made, so a document that does not have
//! the expected shape yields no title rather than an error.
use crate::text::{
    find_char_from, find_from, first_occurrence, index_of_char_from, is_whitespace,
    lemma_first_occurrence_from, matches_at, skip_whitespace, skip_whitespace_from, to_chars,
};
use vstd::prelude::*;
use vstd::string::StrSliceExecFns;

verus! {

/// The key of a title that the user assigned.
pub const CUSTOM_TITLE_KEY: &'static str = "\"customTitle\"";

/// The key of a message text.
pub const TEXT_KEY: &'static str = "\"text\"";

/// The value that stands for an absent custom title.
pub const NULL_LITERAL: &'static str = "null";

/// A message text serves as title only with fewer characters than this.
pub const FALLBACK_TITLE_LIMIT: usize = 100;

/// Where the quoted value after the first occurrence of `key` lies in
/// `content`: the index behind its opening quote and the index of its closing
/// quote.
///
/// The value is sought behind the first colon after the key. Whitespace may
/// stand between the colon and the opening quote, nothing else. The value ends
/// at the next quote; escapes are not interpreted.
pub open spec fn quoted_value_span(content: Seq<char>, key: Seq<char>) -> Option<(int, int)> {
    match first_occurrence(content, key) {
        None => None,
        Some(start) => match index_of_char_from(content, ':', start + key.len()) {
            None => None,
            Some(colon) => {
                let open = skip_whitespace(content, colon + 1);
                if open < content.len() && content[open] == '"' {
                    match index_of_char_from(content, '"', open + 1) {
                        None => None,
                        Some(close) => Some((open + 1, close)),
                    }
                } else {
                    None
                }
            },
        },
    }
}

/// The first quoted value after the first occurrence of `key` in `content`.
pub open spec fn quoted_value_after(content: Seq<char>, key: Seq<char>) -> Option<Seq<char>> {
    match quoted_value_span(content, key) {
        None => None,
        Some((from, to)) => Some(content.subrange(from, to)),
    }
}

/// A custom title counts unless it is empty or the literal `null`.
pub open spec fn acceptable_custom_title(title: Seq<char>) -> bool {
    title.len() > 0 && title != NULL_LITERAL@
}

/// A message text counts as title if it is not empty and has fewer than
/// `FALLBACK_TITLE_LIMIT` characters.
pub open spec fn acceptable_fallback_title(title: Seq<char>) -> bool {
    0 < title.len() < FALLBACK_TITLE_LIMIT
}

/// The title of the session whose document is `content`: its custom title
/// where that is acceptable, else its first message text where that is
/// acceptable, else none.
pub open spec fn title_of(content: Seq<char>) -> Option<Seq<char>> {
    let custom = quoted_value_after(content, CUSTOM_TITLE_KEY@);
    let text = quoted_value_after(content, TEXT_KEY@);
    if custom is Some && acceptable_custom_title(custom->0) {
        custom
    } else if text is Some && acceptable_fallback_title(text->0) {
        text
    } else {
        None
    }
}

/// A span that `quoted_value_span` gives lies within the content.
pub proof fn lemma_quoted_value_span_bounds(content: Seq<char>, key: Seq<char>)
    ensures
        quoted_value_span(content, key) matches Some((from, to)) ==> 0 < from <= to
            < content.len(),
{
    if let Some(start) = first_occurrence(content, key) {
        lemma_first_occurrence_from(content, key, 0);
        if let Some(colon) = index_of_char_from(content, ':', start + key.len()) {
            lemma_first_occurrence_from(content, seq![':'], start + key.len());
            let open = skip_whitespace(content, colon + 1);
            lemma_skip_whitespace_bounds(content, colon + 1);
            if open < content.len() && content[open] == '"' {
                lemma_first_occurrence_from(content, seq!['"'], open + 1);
            }
        }
    }
}

/// Skipping whitespace moves forward only, and stops at the end at the latest.
pub proof fn lemma_skip_whitespace_bounds(s: Seq<char>, from: int)
    ensures
        from <= skip_whitespace(s, from),
        from <= s.len() ==> skip_whitespace(s, from) <= s.len(),
    decreases s.len() - from,
{
    if 0 <= from < s.len() && is_whitespace(s[from]) {
        lemma_skip_whitespace_bounds(s, from + 1);
    }
}

/// Where the quoted value after the first occurrence of `key` lies in
/// `content`.
fn find_quoted_value(content: &Vec<char>, key: &Vec<char>) -> (r: Option<(usize, usize)>)
    ensures
        match r {
            Some((from, to)) => {
                &&& quoted_value_span(content@, key@) == Some((from as int, to as int))
                &&& from <= to < content.len()
            },
            None => quoted_value_span(content@, key@) is None,
        },
{
    proof {
        lemma_quoted_value_span_bounds(content@, key@);
        lemma_first_occurrence_from(content@, key@, 0);
    }
    let start = match find_from(content, key, 0) {
        Some(start) => start,
        None => {
            return None;
        },
    };
    let colon = match find_char_from(content, ':', start + key.len()) {
        Some(colon) => colon,
        None => {
            return None;
        },
    };
    proof {
        lemma_first_occurrence_from(content@, seq![':'], start + key.len());
    }
    let open = skip_whitespace_from(content, colon + 1);
    if open >= content.len() || content[open] != '"' {
        return None;
    }
    match find_char_from(content, '"', open + 1) {
        Some(close) => Some((open + 1, close)),
        None => None,
    }
}

/// The first quoted value after the first occurrence of `key` in `content`,
/// where there is one.
pub fn first_quoted_value_after(content: &str, key: &str) -> (r: Option<String>)
    ensures
        r.deep_view() == quoted_value_after(content@, key@),
{
    let chars = to_chars(content);
    let key_chars = to_chars(key);
    match find_quoted_value(&chars, &key_chars) {
        Some((from, to)) => Some(content.substring_char(from, to).to_owned()),
        None => None,
    }
}

/// The title of the session whose document is `content`.
///
/// First the value of the custom-title key is taken, unless it is empty or the
/// literal `null`. Failing that, the value of the first message-text key is
/// taken, if it is not empty and has fewer than `FALLBACK_TITLE_LIMIT`
/// characters. Failing both, there is no title: a default is for the caller to
/// choose.
pub fn extract_title_from_content(content: &str) -> (r: Option<String>)
    ensures
        r.deep_view() == title_of(content@),
{
    let chars = to_chars(content);
    let custom_key = to_chars(CUSTOM_TITLE_KEY);
    let null_chars = to_chars(NULL_LITERAL);
    match find_quoted_value(&chars, &custom_key) {
        Some((from, to)) => {
            let is_null = to - from == null_chars.len() && matches_at(&chars, &null_chars, from);
            assert(is_null == (chars@.subrange(from as int, to as int) =~= NULL_LITERAL@));
            if to > from && !is_null {
                return Some(content.substring_char(from, to).to_owned());
            }
        },
        None => {},
    }
    let text_key = to_chars(TEXT_KEY);
    match find_quoted_value(&chars, &text_key) {
        Some((from, to)) => {
            if to > from && to - from < FALLBACK_TITLE_LIMIT {
                return Some(content.substring_char(from, to).to_owned());
            }
        },
        None => {},
    }
    None
}

/// The title of the session whose document begins with `header`. The scan is
/// that of `extract_title_from_content`, made on the part that was read.
pub fn extract_title_fast(header: &str) -> (r: Option<String>)
    ensures
        r.deep_view() == title_of(header@),
{
    extract_title_from_content(header)
}

} // verus!
