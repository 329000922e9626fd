//! Byte offsets into UTF-8 text: lengths, character boundaries and slicing.

use vstd::prelude::*;
use vstd::utf8::*;

verus! {

/// The UTF-8 bytes of `text`.
pub open spec fn bytes_of(text: Seq<char>) -> Seq<u8> {
    encode_utf8(text)
}

/// Length of `text` in bytes.
pub open spec fn byte_len(text: Seq<char>) -> int {
    encode_utf8(text).len() as int
}

/// Whether byte offset `index` lies between two characters of `text`, or at
/// one of its ends.
pub open spec fn on_boundary(text: Seq<char>, index: int) -> bool {
    is_char_boundary(encode_utf8(text), index)
}

/// Encoding distributes over concatenation.
pub proof fn lemma_encode_concat(a: Seq<char>, b: Seq<char>)
    ensures
        encode_utf8(a + b) == encode_utf8(a) + encode_utf8(b),
    decreases a.len(),
{
    if a.len() == 0 {
        assert(a + b =~= b);
        assert(encode_utf8(a) + encode_utf8(b) =~= encode_utf8(b));
    } else {
        assert((a + b).drop_first() =~= a.drop_first() + b);
        lemma_encode_concat(a.drop_first(), b);
        assert(encode_utf8(a + b) =~= encode_utf8(a) + encode_utf8(b));
    }
}

/// A boundary lies within the bytes.
pub proof fn lemma_boundary_in_range(bytes: Seq<u8>, index: int)
    requires
        valid_utf8(bytes),
        is_char_boundary(bytes, index),
    ensures
        0 <= index <= bytes.len(),
{
}

/// A boundary of a text stays one when more text is appended.
pub proof fn lemma_boundary_kept(front: Seq<u8>, back: Seq<u8>, index: int)
    requires
        valid_utf8(front),
        valid_utf8(back),
        is_char_boundary(front, index),
    ensures
        is_char_boundary(front + back, index),
{
    let all = front + back;
    valid_utf8_concat(front, back);
    lemma_boundary_in_range(front, index);
    if index < front.len() {
        is_char_boundary_iff_not_is_continuation_byte(front, index);
        is_char_boundary_iff_not_is_continuation_byte(all, index);
    } else if back.len() == 0 {
        assert(all =~= front);
    } else {
        is_char_boundary_iff_not_is_continuation_byte(back, 0);
        is_char_boundary_iff_not_is_continuation_byte(all, index);
    }
}

/// A boundary of appended text, shifted by the length of what stood before
/// it, is a boundary of the whole.
pub proof fn lemma_boundary_shifted(front: Seq<u8>, back: Seq<u8>, index: int)
    requires
        valid_utf8(front),
        valid_utf8(back),
        is_char_boundary(back, index),
    ensures
        is_char_boundary(front + back, front.len() + index),
{
    let all = front + back;
    valid_utf8_concat(front, back);
    lemma_boundary_in_range(back, index);
    if index < back.len() {
        is_char_boundary_iff_not_is_continuation_byte(back, index);
        is_char_boundary_iff_not_is_continuation_byte(all, front.len() + index);
    } else {
        is_char_boundary_start_end_of_seq(all);
    }
}

/// A boundary is also a boundary of any prefix that ends at a later boundary.
pub proof fn lemma_boundary_of_prefix(bytes: Seq<u8>, start: int, end: int)
    requires
        valid_utf8(bytes),
        is_char_boundary(bytes, start),
        is_char_boundary(bytes, end),
        start <= end,
    ensures
        valid_utf8(bytes.subrange(0, end)),
        is_char_boundary(bytes.subrange(0, end), start),
{
    lemma_boundary_in_range(bytes, start);
    lemma_boundary_in_range(bytes, end);
    valid_utf8_split(bytes, end);
    let prefix = bytes.subrange(0, end);
    if start < end {
        is_char_boundary_iff_not_is_continuation_byte(bytes, start);
        is_char_boundary_iff_not_is_continuation_byte(prefix, start);
    } else {
        is_char_boundary_start_end_of_seq(prefix);
    }
}

/// Length of `text` in bytes.
pub fn str_byte_len(text: &str) -> (len: usize)
    ensures
        len == byte_len(text@),
{
    broadcast use vstd::slice::axiom_spec_len;

    text.as_bytes().len()
}

/// The part of `text` between two of its character boundaries.
pub fn str_between<'a>(text: &'a str, start: usize, end: usize) -> (part: &'a str)
    requires
        start <= end,
        on_boundary(text@, start as int),
        on_boundary(text@, end as int),
    ensures
        bytes_of(part@) == bytes_of(text@).subrange(start as int, end as int),
        part@ == decode_utf8(bytes_of(text@).subrange(start as int, end as int)),
{
    let ghost bytes = encode_utf8(text@);
    proof {
        encode_utf8_valid_utf8(text@);
        lemma_boundary_of_prefix(bytes, start as int, end as int);
        lemma_boundary_in_range(bytes, end as int);
    }
    let (prefix, _) = text.split_at(end);
    let (_, part) = prefix.split_at(start);
    proof {
        assert(encode_utf8(part@) =~= bytes.subrange(start as int, end as int));
        encode_utf8_decode_utf8(part@);
    }
    part
}

} // verus!
