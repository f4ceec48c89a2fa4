//! Laws of the builder's byte accumulation and UTF-8 finalization.
//!
//! These proof functions state, over the same specification functions the
//! builder's contracts use, the properties that hold of every sequence of
//! appends: the accumulated bytes are the concatenation, in call order, of
//! the appended values' representations; their total length is the sum of
//! the representations' lengths; and a successful finalize yields the one
//! character sequence whose UTF-8 encoding is exactly those bytes.

use crate::Builder;
use vstd::prelude::*;
use vstd::utf8::{
    char_is_scalar, decode_utf8, encode_scalar, encode_utf8, encode_utf8_decode_utf8,
    encode_utf8_valid_utf8, valid_utf8,
};

verus! {

/// Capacity hint independence: builders constructed with any two capacity
/// hints hold identical (empty) contents, and every other operation's
/// contract reads only the contents — the hint never shows in results.
pub proof fn lemma_capacity_independence(size1: usize, size2: usize, b1: Builder, b2: Builder)
    requires
        call_ensures(Builder::new, (size1,), b1),
        call_ensures(Builder::new, (size2,), b2),
    ensures
        b1@ == b2@,
{
}

/// Concatenation, in order, of a sequence of byte representations: the bytes
/// a builder holds after appending values with exactly those representations.
pub open spec fn concat_of(reps: Seq<Seq<u8>>) -> Seq<u8>
    decreases reps.len(),
{
    if reps.len() == 0 {
        Seq::empty()
    } else {
        reps[0] + concat_of(reps.drop_first())
    }
}

/// Sum of the lengths of a sequence of byte representations.
pub open spec fn total_len(reps: Seq<Seq<u8>>) -> nat
    decreases reps.len(),
{
    if reps.len() == 0 {
        0
    } else {
        reps[0].len() + total_len(reps.drop_first())
    }
}

/// Length correctness: after any sequence of successful appends, the byte
/// count of the accumulated buffer equals the sum of the byte-lengths of the
/// appended values' representations.
pub proof fn lemma_concat_of_len(reps: Seq<Seq<u8>>)
    ensures
        concat_of(reps).len() == total_len(reps),
    decreases reps.len(),
{
    if reps.len() != 0 {
        lemma_concat_of_len(reps.drop_first());
    }
}

/// Order preservation: when the accumulated bytes are the concatenation, in
/// call order, of the appended values' byte representations, the text of a
/// successful finalize is the one character sequence whose UTF-8 encoding is
/// exactly that concatenation — no other text encodes the same bytes.
pub proof fn lemma_order_preservation(reps: Seq<Seq<u8>>, text: Seq<char>)
    requires
        encode_utf8(text) == concat_of(reps),
    ensures
        valid_utf8(concat_of(reps)),
        decode_utf8(concat_of(reps)) == text,
        forall|other: Seq<char>| encode_utf8(other) == concat_of(reps) ==> other == text,
{
    encode_utf8_valid_utf8(text);
    encode_utf8_decode_utf8(text);
    assert forall|other: Seq<char>| encode_utf8(other) == concat_of(reps) implies other
        == text by {
        encode_utf8_decode_utf8(other);
    }
}

/// Encoding distributes over concatenation of character sequences: appending
/// a text is the same, byte for byte, as appending its characters one by one.
pub proof fn lemma_encode_utf8_concat(a: Seq<char>, b: Seq<char>)
    ensures
        encode_utf8(a + b) == encode_utf8(a) + encode_utf8(b),
    decreases a.len(),
{
    if a.len() == 0 {
        assert(a + b =~= b);
        assert(encode_utf8(a) + encode_utf8(b) =~= encode_utf8(b));
    } else {
        lemma_encode_utf8_concat(a.drop_first(), b);
        assert((a + b).drop_first() =~= a.drop_first() + b);
        assert((a + b)[0] == a[0]);
        assert(encode_scalar(a[0] as u32) + (encode_utf8(a.drop_first()) + encode_utf8(b)) =~= (
        encode_scalar(a[0] as u32) + encode_utf8(a.drop_first())) + encode_utf8(b));
    }
}

/// Code-point round trip: the UTF-8 encoding of a single character — between
/// 1 and 4 bytes — is valid UTF-8 and decodes to exactly that one character.
pub proof fn lemma_char_round_trip(c: char)
    ensures
        encode_scalar(c as u32) == encode_utf8(seq![c]),
        valid_utf8(encode_scalar(c as u32)),
        decode_utf8(encode_scalar(c as u32)) == seq![c],
        1 <= encode_scalar(c as u32).len() <= 4,
{
    char_is_scalar(c);
    assert(seq![c].drop_first() =~= Seq::<char>::empty());
    assert(encode_utf8(Seq::<char>::empty()) =~= Seq::<u8>::empty());
    assert(encode_scalar(c as u32) =~= encode_utf8(seq![c]));
    encode_utf8_valid_utf8(seq![c]);
    encode_utf8_decode_utf8(seq![c]);
}

/// Empty builder: an empty byte sequence is valid UTF-8 and decodes to the
/// empty text, so finalizing with no appends never fails.
pub proof fn lemma_empty_builder()
    ensures
        valid_utf8(Seq::<u8>::empty()),
        decode_utf8(Seq::<u8>::empty()) == Seq::<char>::empty(),
{
    assert(decode_utf8(Seq::<u8>::empty()) =~= Seq::<char>::empty());
}

} // verus!
