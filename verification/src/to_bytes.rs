//! Byte representations of the values a `Builder` accepts.
//!
//! Every appendable value converts to a byte sequence through the [`ToBytes`]
//! trait: text and text views contribute their UTF-8 encoding, a `u8`
//! contributes itself, a `char` contributes the UTF-8 encoding of its scalar
//! value, and a byte slice contributes its bytes unchanged. The spec-level
//! representation of each conversion is `bytes_spec`, stated over the UTF-8
//! definitions of `vstd::utf8`.

use vstd::prelude::*;
use vstd::utf8::{char_is_scalar, encode_scalar, encode_utf8};

verus! {

/// A value that can be turned into the sequence of bytes a `Builder` appends.
pub trait ToBytes {
    /// The byte representation that the contracts speak of.
    spec fn bytes_spec(&self) -> Seq<u8>;

    /// Return the byte representation of this value.
    fn to_bytes(&self) -> (r: Vec<u8>)
        ensures
            r@ == self.bytes_spec(),
    ;
}

/// Copy the bytes of a slice into a fresh `Vec` with the same contents.
pub(crate) fn slice_to_vec(s: &[u8]) -> (r: Vec<u8>)
    ensures
        r@ == s@,
{
    let mut r: Vec<u8> = Vec::with_capacity(s.len());
    let mut i: usize = 0;
    while i < s.len()
        invariant
            i <= s@.len(),
            r@.len() == i,
            forall|k: int| 0 <= k < i ==> r@[k] == s@[k],
        decreases s@.len() - i,
    {
        r.push(s[i]);
        i = i + 1;
    }
    proof {
        assert(r@ =~= s@);
    }
    r
}

/// The UTF-8 encoding of a single character: 1 to 4 bytes, following the
/// standard width rules for its scalar value.
pub(crate) fn encode_char(c: char) -> (r: Vec<u8>)
    ensures
        r@ == encode_scalar(c as u32),
{
    proof {
        char_is_scalar(c);
    }
    let v = c as u32;
    let mut r: Vec<u8> = Vec::with_capacity(4);
    if v <= 0x7F {
        r.push((v & 0x7F) as u8);
    } else if v <= 0x7FF {
        r.push(0xC0 | (((v >> 6) & 0x1F) as u8));
        r.push(0x80 | ((v & 0x3F) as u8));
    } else if v <= 0xFFFF {
        r.push(0xE0 | (((v >> 12) & 0x0F) as u8));
        r.push(0x80 | (((v >> 6) & 0x3F) as u8));
        r.push(0x80 | ((v & 0x3F) as u8));
    } else {
        r.push(0xF0 | (((v >> 18) & 0x07) as u8));
        r.push(0x80 | (((v >> 12) & 0x3F) as u8));
        r.push(0x80 | (((v >> 6) & 0x3F) as u8));
        r.push(0x80 | ((v & 0x3F) as u8));
    }
    proof {
        assert(r@ =~= encode_scalar(c as u32));
    }
    r
}

impl ToBytes for String {
    open spec fn bytes_spec(&self) -> Seq<u8> {
        encode_utf8(self@)
    }

    fn to_bytes(&self) -> (r: Vec<u8>) {
        slice_to_vec(self.as_str().as_bytes())
    }
}

impl<'a> ToBytes for &'a str {
    open spec fn bytes_spec(&self) -> Seq<u8> {
        encode_utf8((*self)@)
    }

    fn to_bytes(&self) -> (r: Vec<u8>) {
        slice_to_vec(self.as_bytes())
    }
}

impl ToBytes for u8 {
    open spec fn bytes_spec(&self) -> Seq<u8> {
        seq![*self]
    }

    fn to_bytes(&self) -> (r: Vec<u8>) {
        let mut r: Vec<u8> = Vec::with_capacity(1);
        r.push(*self);
        proof {
            assert(r@ =~= seq![*self]);
        }
        r
    }
}

impl ToBytes for char {
    open spec fn bytes_spec(&self) -> Seq<u8> {
        encode_scalar(*self as u32)
    }

    fn to_bytes(&self) -> (r: Vec<u8>) {
        encode_char(*self)
    }
}

impl<'a> ToBytes for &'a [u8] {
    open spec fn bytes_spec(&self) -> Seq<u8> {
        (*self)@
    }

    fn to_bytes(&self) -> (r: Vec<u8>) {
        slice_to_vec(self)
    }
}

} // verus!
