//! Raw and rendered coordinates of a row.
//!
//! A raw column is a byte offset into the UTF-8 encoding of a row's text. A
//! rendered column counts screen cells after tab expansion. This module
//! defines how one is derived from the other and how a raw column moves from
//! one character boundary to the next.

use vstd::prelude::*;
use vstd::utf8::{
    decode_utf8, decode_utf8_split, encode_utf8, encode_utf8_decode_utf8, encode_utf8_valid_utf8,
    is_char_boundary, is_char_boundary_start_end_of_seq, valid_utf8,
};

use crate::tabs::{lemma_render_width_prefix, render_width, spaces};

verus! {

/// Length of `text` in bytes.
pub open spec fn raw_len(text: Seq<char>) -> nat {
    encode_utf8(text).len()
}

/// Whether `column` is a place in `text` where a character starts or the text
/// ends.
pub open spec fn is_raw_column(text: Seq<char>, column: int) -> bool {
    0 <= column <= raw_len(text) && is_char_boundary(encode_utf8(text), column)
}

/// The greatest character boundary of `bytes` that is at most `index`, and 0
/// when `index` is not positive.
pub open spec fn floor_boundary(bytes: Seq<u8>, index: int) -> int
    decreases index,
{
    if index <= 0 {
        0
    } else if is_char_boundary(bytes, index) {
        index
    } else {
        floor_boundary(bytes, index - 1)
    }
}

/// The least character boundary of `bytes` that is greater than `index`; an
/// `index` at or beyond the end stays where it is.
pub open spec fn next_boundary(bytes: Seq<u8>, index: int) -> int
    decreases bytes.len() - index,
{
    if index >= bytes.len() {
        index
    } else if is_char_boundary(bytes, index + 1) {
        index + 1
    } else {
        next_boundary(bytes, index + 1)
    }
}

/// The greatest character boundary of `bytes` that is less than `index`; at
/// the start there is none, and the result is 0.
pub open spec fn prev_boundary(bytes: Seq<u8>, index: int) -> int {
    floor_boundary(bytes, index - 1)
}

/// The characters of `text` that lie before the raw column `column`.
pub open spec fn chars_before(text: Seq<char>, column: int) -> Seq<char> {
    decode_utf8(encode_utf8(text).subrange(0, column))
}

/// The rendered column of the raw column `column` in `text`: the width of
/// everything before it, tabs expanded.
pub open spec fn render_column(text: Seq<char>, column: int) -> nat {
    render_width(chars_before(text, column))
}

/// `floor_boundary` is a boundary, lies in `0..=index`, and no boundary lies
/// between it and `index`.
pub proof fn lemma_floor_boundary(bytes: Seq<u8>, index: int)
    requires
        valid_utf8(bytes),
        0 <= index,
    ensures
        0 <= floor_boundary(bytes, index) <= index,
        is_char_boundary(bytes, floor_boundary(bytes, index)),
        forall|j: int| floor_boundary(bytes, index) < j <= index ==> !is_char_boundary(bytes, j),
    decreases index,
{
    if index > 0 && !is_char_boundary(bytes, index) {
        lemma_floor_boundary(bytes, index - 1);
    }
}

/// `next_boundary` of an index before the end is a boundary after it, at most
/// the end, and no boundary lies between the two.
pub proof fn lemma_next_boundary(bytes: Seq<u8>, index: int)
    requires
        valid_utf8(bytes),
        0 <= index < bytes.len(),
    ensures
        index < next_boundary(bytes, index) <= bytes.len(),
        is_char_boundary(bytes, next_boundary(bytes, index)),
        forall|j: int| index < j < next_boundary(bytes, index) ==> !is_char_boundary(bytes, j),
    decreases bytes.len() - index,
{
    is_char_boundary_start_end_of_seq(bytes);
    if !is_char_boundary(bytes, index + 1) {
        lemma_next_boundary(bytes, index + 1);
    }
}

/// Stepping back from a boundary and forward again returns to it.
pub proof fn lemma_prev_then_next(bytes: Seq<u8>, index: int)
    requires
        valid_utf8(bytes),
        0 < index <= bytes.len(),
        is_char_boundary(bytes, index),
    ensures
        next_boundary(bytes, prev_boundary(bytes, index)) == index,
{
    lemma_floor_boundary(bytes, index - 1);
    lemma_next_boundary(bytes, prev_boundary(bytes, index));
}

/// Stepping forward from a boundary and back again returns to it.
pub proof fn lemma_next_then_prev(bytes: Seq<u8>, index: int)
    requires
        valid_utf8(bytes),
        0 <= index < bytes.len(),
        is_char_boundary(bytes, index),
    ensures
        prev_boundary(bytes, next_boundary(bytes, index)) == index,
{
    lemma_next_boundary(bytes, index);
    lemma_floor_boundary(bytes, next_boundary(bytes, index) - 1);
}

/// The characters before a raw column are a prefix of the text.
pub proof fn lemma_chars_before_is_prefix(text: Seq<char>, column: int)
    requires
        is_raw_column(text, column),
    ensures
        chars_before(text, column).len() <= text.len(),
        chars_before(text, column) == text.take(chars_before(text, column).len() as int),
{
    let bytes = encode_utf8(text);
    encode_utf8_valid_utf8(text);
    encode_utf8_decode_utf8(text);
    decode_utf8_split(bytes, column);
    let head = decode_utf8(bytes.subrange(0, column));
    let tail = decode_utf8(bytes.subrange(column, bytes.len() as int));
    assert(text == head + tail);
    assert(text.take(head.len() as int) == head);
}

/// The rendered column of a raw column is at most the rendered width of the
/// row.
pub proof fn lemma_render_column_bound(text: Seq<char>, column: int)
    requires
        is_raw_column(text, column),
    ensures
        render_column(text, column) <= render_width(text),
{
    lemma_chars_before_is_prefix(text, column);
    lemma_render_width_prefix(text, chars_before(text, column).len() as int);
}

/// The encoding of a concatenation is the concatenation of the encodings.
pub proof fn lemma_encode_concat(a: Seq<char>, b: Seq<char>)
    ensures
        encode_utf8(a + b) == encode_utf8(a) + encode_utf8(b),
    decreases a.len(),
{
    if a.len() == 0 {
        assert(a + b == b);
    } else {
        lemma_encode_concat(a.drop_first(), b);
        assert((a + b).drop_first() == a.drop_first() + b);
    }
}

/// Lengths in bytes add up under concatenation.
pub proof fn lemma_raw_len_concat(a: Seq<char>, b: Seq<char>)
    ensures
        raw_len(a + b) == raw_len(a) + raw_len(b),
{
    lemma_encode_concat(a, b);
}

/// A run of spaces is as many bytes long as it has spaces.
pub proof fn lemma_raw_len_spaces(n: nat)
    ensures
        raw_len(spaces(n)) == n,
{
    vstd::utf8::is_ascii_chars_encode_utf8(spaces(n));
}

} // verus!
