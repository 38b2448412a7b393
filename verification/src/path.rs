//! Project paths: the path that the folder reference of a workspace
//! descriptor names, and the normal form in which paths are compared.
use crate::text::to_chars;
use vstd::prelude::*;
use vstd::string::StrSliceExecFns;
use vstd::utf8::{decode_utf8, encode_utf8, valid_utf8};

verus! {

/// The scheme of a folder reference that names a local directory.
pub const FILE_SCHEME: &'static str = "file://";

/// The byte that starts a percent escape.
pub const PERCENT: u8 = 0x25;

/// Whether `c` parts the segments of a path.
pub open spec fn is_separator(c: char) -> bool {
    c == '/' || c == '\\'
}

/// The end of the last segment of the first `upto` characters of `path`: what
/// is left of them when the separators at their end are taken off.
pub open spec fn segment_end(path: Seq<char>, upto: int) -> int
    decreases upto,
{
    if 0 < upto <= path.len() && is_separator(path[upto - 1]) {
        segment_end(path, upto - 1)
    } else {
        upto
    }
}

/// The start of the segment that ends at `end`: the least index from which no
/// separator stands before `end`.
pub open spec fn segment_start(path: Seq<char>, end: int) -> int
    decreases end,
{
    if 0 < end <= path.len() && !is_separator(path[end - 1]) {
        segment_start(path, end - 1)
    } else {
        end
    }
}

/// The last segment of `path`: its last run of characters that holds no
/// separator. A path made of separators alone, or empty, has none.
pub open spec fn last_segment(path: Seq<char>) -> Option<Seq<char>> {
    let end = segment_end(path, path.len() as int);
    if end <= 0 {
        None
    } else {
        Some(path.subrange(segment_start(path, end), end))
    }
}

/// The normal form of a path: the path without the separators at its end. A
/// path made of separators alone keeps its first.
pub open spec fn normalized(path: Seq<char>) -> Seq<char> {
    let end = segment_end(path, path.len() as int);
    if end <= 0 && path.len() > 0 {
        path.take(1)
    } else {
        path.take(end)
    }
}

/// The value of a hexadecimal digit.
pub open spec fn hex_value(b: u8) -> Option<int> {
    if 0x30 <= b <= 0x39 {
        Some(b - 0x30)
    } else if 0x41 <= b <= 0x46 {
        Some(b - 0x41 + 10)
    } else if 0x61 <= b <= 0x66 {
        Some(b - 0x61 + 10)
    } else {
        None
    }
}

/// The byte that the percent escape at `at` stands for: a percent sign and
/// two hexadecimal digits. `None` where no escape stands at `at`.
pub open spec fn escape_at(bytes: Seq<u8>, at: int) -> Option<int> {
    if 0 <= at && at + 2 < bytes.len() && bytes[at] == PERCENT && hex_value(bytes[at + 1]) is Some
        && hex_value(bytes[at + 2]) is Some {
        Some(16 * hex_value(bytes[at + 1])->0 + hex_value(bytes[at + 2])->0)
    } else {
        None
    }
}

/// The bytes from `from` on, each percent escape resolved to the byte it
/// stands for. A percent sign that starts no escape stays as it is.
pub open spec fn percent_decoded(bytes: Seq<u8>, from: int) -> Seq<u8>
    decreases bytes.len() - from,
{
    if from < 0 || from >= bytes.len() {
        Seq::empty()
    } else {
        match escape_at(bytes, from) {
            Some(byte) => seq![byte as u8] + percent_decoded(bytes, from + 3),
            None => seq![bytes[from]] + percent_decoded(bytes, from + 1),
        }
    }
}

/// Whether `bytes` begins with `prefix`.
pub open spec fn begins_with(bytes: Seq<u8>, prefix: Seq<u8>) -> bool {
    &&& prefix.len() <= bytes.len()
    &&& forall|k: int| 0 <= k < prefix.len() ==> bytes[k] == #[trigger] prefix[k]
}

/// Where the reference proper starts: behind the file scheme, if the bytes
/// begin with it.
pub open spec fn scheme_len(bytes: Seq<u8>) -> int {
    if begins_with(bytes, encode_utf8(FILE_SCHEME@)) {
        encode_utf8(FILE_SCHEME@).len() as int
    } else {
        0
    }
}

/// The bytes of the path that a folder reference names: the reference
/// without its file scheme, its percent escapes resolved.
pub open spec fn folder_bytes(raw: Seq<char>) -> Seq<u8> {
    percent_decoded(encode_utf8(raw), scheme_len(encode_utf8(raw)))
}

/// The path that a folder reference names, in normal form. A reference whose
/// resolved bytes are not UTF-8 is taken as it is written.
pub open spec fn decoded_folder(raw: Seq<char>) -> Seq<char> {
    if valid_utf8(folder_bytes(raw)) {
        normalized(decode_utf8(folder_bytes(raw)))
    } else {
        normalized(raw)
    }
}

/// The end of a path in normal form is the end of its last segment.
pub proof fn lemma_segment_end_of_take(path: Seq<char>, upto: int)
    requires
        0 <= upto <= path.len(),
    ensures
        segment_end(path, upto) <= upto,
        segment_end(path, upto) > 0 ==> !is_separator(path[segment_end(path, upto) - 1]),
        segment_end(path.take(segment_end(path, upto)), segment_end(path, upto)) == segment_end(
            path,
            upto,
        ),
    decreases upto,
{
    if 0 < upto && is_separator(path[upto - 1]) {
        lemma_segment_end_of_take(path, upto - 1);
    } else if upto > 0 {
    }
}

/// Normalizing is idempotent: a path in normal form is its own normal form.
pub proof fn lemma_normalized_is_idempotent(path: Seq<char>)
    ensures
        normalized(normalized(path)) == normalized(path),
{
    let end = segment_end(path, path.len() as int);
    lemma_segment_end_of_take(path, path.len() as int);
    let once = normalized(path);
    if end <= 0 && path.len() > 0 {
        assert(is_separator(path[0])) by {
            lemma_all_separators(path, path.len() as int);
        }
        assert(segment_end(once, 1) == segment_end(once, 0));
    }
}

/// Where nothing is left when the separators at the end are taken off, every
/// character is a separator.
proof fn lemma_all_separators(path: Seq<char>, upto: int)
    requires
        0 <= upto <= path.len(),
        segment_end(path, upto) <= 0,
    ensures
        forall|k: int| 0 <= k < upto ==> is_separator(#[trigger] path[k]),
    decreases upto,
{
    if upto > 0 {
        lemma_all_separators(path, upto - 1);
    }
}

/// The normal form of a path, in which paths are compared: the path without
/// the separators at its end.
pub fn normalize_path(path: &str) -> (r: String)
    ensures
        r@ == normalized(path@),
        normalized(r@) == r@,
{
    proof {
        lemma_normalized_is_idempotent(path@);
    }
    let chars = to_chars(path);
    let mut end: usize = chars.len();
    while end > 0 && (chars[end - 1] == '/' || chars[end - 1] == '\\')
        invariant
            end <= chars.len(),
            segment_end(chars@, chars.len() as int) == segment_end(chars@, end as int),
        decreases end,
    {
        end -= 1;
    }
    if end == 0 && chars.len() > 0 {
        path.substring_char(0, 1).to_owned()
    } else {
        path.substring_char(0, end).to_owned()
    }
}

/// The last segment of `path`, where it has one.
pub fn path_last_segment(path: &str) -> (r: Option<String>)
    ensures
        r.deep_view() == last_segment(path@),
{
    let chars = to_chars(path);
    let mut end: usize = chars.len();
    while end > 0 && (chars[end - 1] == '/' || chars[end - 1] == '\\')
        invariant
            end <= chars.len(),
            segment_end(chars@, chars.len() as int) == segment_end(chars@, end as int),
        decreases end,
    {
        end -= 1;
    }
    if end == 0 {
        return None;
    }
    let mut start: usize = end;
    while start > 0 && !(chars[start - 1] == '/' || chars[start - 1] == '\\')
        invariant
            start <= end <= chars.len(),
            segment_start(chars@, end as int) == segment_start(chars@, start as int),
        decreases start,
    {
        start -= 1;
    }
    Some(path.substring_char(start, end).to_owned())
}

/// The value of a hexadecimal digit.
fn hex_digit(b: u8) -> (r: Option<u8>)
    ensures
        match r {
            Some(v) => hex_value(b) == Some(v as int) && v < 16,
            None => hex_value(b) is None,
        },
{
    if 0x30 <= b && b <= 0x39 {
        Some(b - 0x30)
    } else if 0x41 <= b && b <= 0x46 {
        Some(b - 0x41 + 10)
    } else if 0x61 <= b && b <= 0x66 {
        Some(b - 0x61 + 10)
    } else {
        None
    }
}

/// Whether `bytes` begins with `prefix`.
fn starts_with_bytes(bytes: &[u8], prefix: &[u8]) -> (r: bool)
    ensures
        r == begins_with(bytes@, prefix@),
{
    if prefix.len() > bytes.len() {
        return false;
    }
    let mut k: usize = 0;
    while k < prefix.len()
        invariant
            k <= prefix.len() <= bytes.len(),
            forall|j: int| 0 <= j < k ==> bytes@[j] == #[trigger] prefix@[j],
        decreases prefix.len() - k,
    {
        if bytes[k] != prefix[k] {
            return false;
        }
        k += 1;
    }
    true
}

/// The bytes from `from` on, each percent escape resolved.
fn percent_decode(bytes: &[u8], from: usize) -> (r: Vec<u8>)
    requires
        from <= bytes.len(),
    ensures
        r@ == percent_decoded(bytes@, from as int),
{
    let mut out: Vec<u8> = Vec::new();
    let mut i: usize = from;
    while i < bytes.len()
        invariant
            from <= i <= bytes.len(),
            out@ + percent_decoded(bytes@, i as int) == percent_decoded(bytes@, from as int),
        decreases bytes.len() - i,
    {
        let escape = if bytes[i] == PERCENT && bytes.len() - i > 2 {
            match (hex_digit(bytes[i + 1]), hex_digit(bytes[i + 2])) {
                (Some(high), Some(low)) => Some(16 * high + low),
                _ => None,
            }
        } else {
            None
        };
        match escape {
            Some(byte) => {
                out.push(byte);
                i += 3;
            },
            None => {
                out.push(bytes[i]);
                i += 1;
            },
        }
    }
    out
}

/// The path that the folder reference of a workspace descriptor names.
///
/// The file scheme is taken off, the percent escapes are resolved, and the
/// path is put in normal form. A reference whose resolved bytes are not UTF-8
/// is taken as it is written.
pub fn decode_workspace_folder(raw: &str) -> (r: String)
    ensures
        r@ == decoded_folder(raw@),
        normalized(r@) == r@,
{
    let bytes = raw.as_bytes();
    let scheme = FILE_SCHEME.as_bytes();
    let start: usize = if starts_with_bytes(bytes, scheme) {
        scheme.len()
    } else {
        0
    };
    match string_from_utf8(percent_decode(bytes, start)) {
        Some(path) => normalize_path(path.as_str()),
        None => normalize_path(raw),
    }
}

/// `String::from_utf8`. The contract claims that the call gives the string
/// that the bytes spell in UTF-8, and fails exactly where they spell none. It
/// is taken on trust.
#[verifier::external_body]
fn string_from_utf8(bytes: Vec<u8>) -> (r: Option<String>)
    ensures
        match r {
            Some(s) => valid_utf8(bytes@) && s@ == decode_utf8(bytes@),
            None => !valid_utf8(bytes@),
        },
{
    String::from_utf8(bytes).ok()
}

} // verus!
