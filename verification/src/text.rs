//! Cutting a text at a byte position without splitting a character.

use vstd::prelude::*;
use vstd::utf8::*;

verus! {

/// The last character boundary of `bytes` at or before `index`.
pub open spec fn boundary_below(bytes: Seq<u8>, index: int) -> int
    decreases index,
{
    if index <= 0 {
        0
    } else if index >= bytes.len() {
        bytes.len() as int
    } else if is_char_boundary(bytes, index) {
        index
    } else {
        boundary_below(bytes, index - 1)
    }
}

/// The first character boundary of `bytes` at or after `index`.
pub open spec fn boundary_above(bytes: Seq<u8>, index: int) -> int
    decreases bytes.len() - index,
{
    if index <= 0 {
        0
    } else if index >= bytes.len() {
        bytes.len() as int
    } else if is_char_boundary(bytes, index) {
        index
    } else {
        boundary_above(bytes, index + 1)
    }
}

/// The character boundary of `bytes` that is nearest to `index`; of two that
/// are equally near, the later one. An index behind the end is the end.
pub open spec fn split_point(bytes: Seq<u8>, index: int) -> int {
    let below = boundary_below(bytes, index);
    let above = boundary_above(bytes, index);
    if index - below < above - index {
        below
    } else {
        above
    }
}

/// The characters of `text` that lie before the split point nearest to the
/// byte position `index` of its UTF-8 encoding.
pub open spec fn revealed(text: Seq<char>, index: nat) -> Seq<char> {
    let bytes = encode_utf8(text);
    decode_utf8(bytes.subrange(0, split_point(bytes, index as int)))
}

/// The number of bytes that the revealed part of `text` takes.
pub open spec fn revealed_len(text: Seq<char>, index: nat) -> nat {
    split_point(encode_utf8(text), index as int) as nat
}

/// The boundary below an index is a boundary, lies at or before the index and
/// within the text, and no boundary lies between the two.
pub proof fn lemma_boundary_below(bytes: Seq<u8>, index: int)
    requires
        valid_utf8(bytes),
        0 <= index,
    ensures
        0 <= boundary_below(bytes, index) <= bytes.len(),
        boundary_below(bytes, index) <= index,
        is_char_boundary(bytes, boundary_below(bytes, index)),
        forall|k: int|
            boundary_below(bytes, index) < k <= index ==> !#[trigger] is_char_boundary(bytes, k),
    decreases index,
{
    is_char_boundary_start_end_of_seq(bytes);
    if index <= 0 {
    } else if index >= bytes.len() {
        assert forall|k: int| bytes.len() < k <= index implies !#[trigger] is_char_boundary(
            bytes,
            k,
        ) by {}
    } else if is_char_boundary(bytes, index) {
    } else {
        lemma_boundary_below(bytes, index - 1);
    }
}

/// The boundary above an index is a boundary within the text, lies at or
/// behind the index unless the index is behind the end, and no boundary lies
/// between the two.
pub proof fn lemma_boundary_above(bytes: Seq<u8>, index: int)
    requires
        valid_utf8(bytes),
        0 <= index,
    ensures
        0 <= boundary_above(bytes, index) <= bytes.len(),
        index <= bytes.len() ==> index <= boundary_above(bytes, index),
        is_char_boundary(bytes, boundary_above(bytes, index)),
        forall|k: int|
            index <= k < boundary_above(bytes, index) ==> !#[trigger] is_char_boundary(bytes, k),
    decreases bytes.len() - index,
{
    is_char_boundary_start_end_of_seq(bytes);
    if index <= 0 {
    } else if index >= bytes.len() {
    } else if is_char_boundary(bytes, index) {
    } else {
        lemma_boundary_above(bytes, index + 1);
    }
}

/// The split point is a character boundary within the text.
pub proof fn lemma_split_point(bytes: Seq<u8>, index: int)
    requires
        valid_utf8(bytes),
        0 <= index,
    ensures
        0 <= split_point(bytes, index) <= bytes.len(),
        is_char_boundary(bytes, split_point(bytes, index)),
        is_char_boundary(bytes, index) ==> split_point(bytes, index) == index,
        index >= bytes.len() ==> split_point(bytes, index) == bytes.len(),
{
    lemma_boundary_below(bytes, index);
    lemma_boundary_above(bytes, index);
}

/// A text is revealed whole from its end on, and not at all at its start.
pub proof fn lemma_revealed_ends(text: Seq<char>, index: nat)
    ensures
        index >= encode_utf8(text).len() ==> revealed(text, index) == text,
        revealed(text, 0) == Seq::<char>::empty(),
        revealed_len(text, index) <= encode_utf8(text).len(),
{
    let bytes = encode_utf8(text);
    encode_utf8_valid_utf8(text);
    encode_utf8_decode_utf8(text);
    lemma_split_point(bytes, index as int);
    lemma_split_point(bytes, 0);
    if index >= bytes.len() {
        assert(bytes.subrange(0, bytes.len() as int) =~= bytes);
    }
    assert(bytes.subrange(0, 0) =~= Seq::<u8>::empty());
    assert(decode_utf8(Seq::<u8>::empty()) =~= Seq::<char>::empty());
}

/// What is revealed of a text is a part of its beginning: the text is the
/// revealed part followed by the rest.
pub proof fn lemma_revealed_is_prefix(text: Seq<char>, index: nat)
    ensures
        revealed(text, index).len() <= text.len(),
        revealed(text, index) == text.take(revealed(text, index).len() as int),
{
    let bytes = encode_utf8(text);
    encode_utf8_valid_utf8(text);
    encode_utf8_decode_utf8(text);
    lemma_split_point(bytes, index as int);
    let cut = split_point(bytes, index as int);
    decode_utf8_split(bytes, cut);
    let head = decode_utf8(bytes.subrange(0, cut));
    let tail = decode_utf8(bytes.subrange(cut, bytes.len() as int));
    assert(text =~= head + tail);
    assert(head =~= text.take(head.len() as int));
}

/// The part of `text` before the split point nearest to the byte position
/// `index`, and the number of bytes that it takes.
pub fn uncover(text: &str, index: usize) -> (shown: (String, usize))
    ensures
        shown.0@ == revealed(text@, index as nat),
        shown.1 == revealed_len(text@, index as nat),
{
    let ghost bytes = encode_utf8(text@);
    proof {
        encode_utf8_valid_utf8(text@);
        encode_utf8_decode_utf8(text@);
        lemma_split_point(bytes, index as int);
        lemma_boundary_below(bytes, index as int);
        lemma_boundary_above(bytes, index as int);
        is_char_boundary_start_end_of_seq(bytes);
    }
    let len = text.as_bytes().len();
    assert(len == bytes.len());
    let cut: usize = if index >= len {
        len
    } else {
        let mut below: usize = index;
        while !text.is_char_boundary(below)
            invariant
                below <= index < len,
                len == bytes.len(),
                bytes == encode_utf8(text@),
                valid_utf8(bytes),
                boundary_below(bytes, below as int) == boundary_below(bytes, index as int),
            decreases below,
        {
            proof {
                is_char_boundary_start_end_of_seq(bytes);
            }
            below -= 1;
        }
        let mut above: usize = index;
        while !text.is_char_boundary(above)
            invariant
                index <= above <= len,
                len == bytes.len(),
                bytes == encode_utf8(text@),
                valid_utf8(bytes),
                boundary_above(bytes, above as int) == boundary_above(bytes, index as int),
            decreases len - above,
        {
            proof {
                is_char_boundary_start_end_of_seq(bytes);
            }
            above += 1;
        }
        if index - below < above - index {
            below
        } else {
            above
        }
    };
    let (head, _) = text.split_at(cut);
    let shown = head.to_owned();
    proof {
        encode_utf8_decode_utf8(head@);
    }
    (shown, cut)
}

} // verus!
