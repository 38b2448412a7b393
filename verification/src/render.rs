//! Shaping of text for a table cell.
use vstd::prelude::*;
use vstd::string::{StringExecFns, StringSliceAdditionalSpecFns};
use vstd::utf8::{decode_utf8, encode_utf8, is_char_boundary};

verus! {

/// What stands for the part that was cut off.
pub const ELLIPSIS: &'static str = "...";

/// The number of bytes kept, at most, of a text that is cut to `max_len`
/// bytes: room is left for the ellipsis.
pub open spec fn cut_point(max_len: int) -> int {
    if max_len >= 3 {
        max_len - 3
    } else {
        0
    }
}

/// The greatest index at or below `at` that falls between two characters of
/// the text with the bytes `bytes`, or at its start.
pub open spec fn char_boundary_at_or_below(bytes: Seq<u8>, at: int) -> int
    decreases at,
{
    if at <= 0 {
        0
    } else if is_char_boundary(bytes, at) {
        at
    } else {
        char_boundary_at_or_below(bytes, at - 1)
    }
}

/// Whether `s` fits into `max_len` bytes as it is.
pub open spec fn fits(s: Seq<char>, max_len: int) -> bool {
    encode_utf8(s).len() <= max_len
}

/// The characters of `s` that are kept when it is cut to `max_len` bytes:
/// those that its first `cut_point(max_len)` bytes hold in full.
pub open spec fn kept(s: Seq<char>, max_len: int) -> Seq<char> {
    decode_utf8(
        encode_utf8(s).subrange(0, char_boundary_at_or_below(encode_utf8(s), cut_point(max_len))),
    )
}

/// `s` shaped to `max_len` bytes: `s` itself where it fits, else what is kept
/// of it, and the ellipsis.
pub open spec fn truncated(s: Seq<char>, max_len: int) -> Seq<char> {
    if fits(s, max_len) {
        s
    } else {
        kept(s, max_len) + ELLIPSIS@
    }
}

/// Shapes `s` to `max_len` bytes, with an ellipsis where it was cut.
///
/// Lengths are counted in bytes of UTF-8. A text that does not fit is cut
/// three bytes short of `max_len`, or at the start where `max_len` is less
/// than three. A cut that would fall inside a character is made before that
/// character.
pub fn truncate_string(s: &str, max_len: usize) -> (r: String)
    ensures
        r@ == truncated(s@, max_len as int),
{
    broadcast use vstd::utf8::encode_utf8_valid_utf8;

    if s.as_bytes().len() <= max_len {
        String::from_str(s)
    } else {
        let mut cut: usize = if max_len >= 3 {
            max_len - 3
        } else {
            0
        };
        let ghost wanted = cut;
        while cut > 0 && !s.is_char_boundary(cut)
            invariant
                cut <= wanted,
                char_boundary_at_or_below(s.spec_bytes(), wanted as int)
                    == char_boundary_at_or_below(s.spec_bytes(), cut as int),
            decreases cut,
        {
            cut -= 1;
        }
        let (head, _) = s.split_at(cut);
        proof {
            vstd::utf8::encode_utf8_decode_utf8(head@);
        }
        String::from_str(head).concat(ELLIPSIS)
    }
}

} // verus!
