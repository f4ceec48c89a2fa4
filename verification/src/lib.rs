//! A growable string builder.
//!
//! A [`Builder`] owns a contiguous, append-only byte buffer. Values with a
//! byte representation — text, text views, single bytes, characters, raw byte
//! slices — are appended in call order through [`ToBytes`], and the builder is
//! consumed by [`Builder::string`], which validates the accumulated bytes as
//! UTF-8 and yields the text they encode, or an [`InvalidEncoding`] error that
//! locates the first invalid byte.
//!
//! The contracts are stated over the UTF-8 specification functions of
//! `vstd::utf8`: the builder's view is its byte sequence, each append extends
//! that sequence by exactly `bytes_spec` of the appended value, and a
//! successful finalize returns the unique character sequence whose encoding is
//! the accumulated bytes.

mod laws;
mod to_bytes;

pub use laws::{
    concat_of, lemma_capacity_independence, lemma_char_round_trip, lemma_concat_of_len,
    lemma_empty_builder, lemma_encode_utf8_concat, lemma_order_preservation, total_len,
};
pub use to_bytes::ToBytes;

use vstd::prelude::*;
use vstd::utf8::{
    decode_utf8, encode_utf8, encode_utf8_decode_utf8, encode_utf8_valid_utf8, valid_utf8,
};

verus! {

/// Number of bytes reserved by a default-constructed `Builder`.
const DEFAULT_CAPACITY: usize = 1024;

/// This is a growable string builder.
///
/// Its view is the sequence of bytes accumulated so far, in append order.
#[derive(Debug)]
pub struct Builder(Vec<u8>);

impl View for Builder {
    type V = Seq<u8>;

    closed spec fn view(&self) -> Seq<u8> {
        self.0@
    }
}

/// Returned by [`Builder::append`] when the underlying storage cannot grow.
#[derive(Debug, Clone, Copy)]
pub struct WriteFailure;

/// Returned by [`Builder::string`] when the accumulated bytes are not
/// well-formed UTF-8.
#[derive(Debug)]
pub struct InvalidEncoding {
    /// Length of the longest prefix of the bytes that is valid UTF-8; the
    /// first invalid byte sits at this position.
    pub valid_up_to: usize,
    /// The accumulated bytes, unchanged, for inspection.
    pub bytes: Vec<u8>,
}

impl Default for Builder {
    /// Return a new empty `Builder` with the fixed default initial capacity.
    /// The capacity is a performance hint only and never shows in results.
    fn default() -> (r: Builder)
        ensures
            r@ == Seq::<u8>::empty(),
    {
        Builder(Vec::with_capacity(DEFAULT_CAPACITY))
    }
}

impl Builder {
    /// Return a new `Builder` with an initial capacity.
    ///
    /// The capacity is a performance hint only: whatever `size` is, the new
    /// builder is empty, and nothing observable ever depends on `size`.
    pub fn new(size: usize) -> (r: Builder)
        ensures
            r@ == Seq::<u8>::empty(),
    {
        Builder(Vec::with_capacity(size))
    }

    /// Add a type that can be viewed as a slice of bytes.
    ///
    /// The value's byte representation is written, in order and in full, at
    /// the end of the buffer; nothing else changes. The write is atomic at
    /// the granularity of one append and, storage growth being total here,
    /// always succeeds.
    pub fn append<T: ToBytes>(&mut self, buf: T) -> (r: Result<(), WriteFailure>)
        ensures
            r is Ok,
            final(self)@ == old(self)@ + buf.bytes_spec(),
            final(self)@.len() == old(self)@.len() + buf.bytes_spec().len(),
    {
        let mut bytes = buf.to_bytes();
        self.0.append(&mut bytes);
        Ok(())
    }

    /// Return the current length in bytes of the underlying buffer.
    ///
    /// This is a byte count, not a character count: it equals the sum of the
    /// byte-lengths of every value appended so far.
    pub fn len(&self) -> (n: usize)
        ensures
            n == self@.len(),
    {
        self.0.len()
    }

    /// Return a `String` of our buffer once we are done appending to it. This
    /// method consumes the builder.
    ///
    /// Exactly when the accumulated bytes are well-formed UTF-8, the result is
    /// `Ok` with the text those bytes encode, unaltered. Otherwise the result
    /// is an [`InvalidEncoding`] error carrying the bytes unchanged and the
    /// position of the first invalid byte.
    pub fn string(self) -> (r: Result<String, InvalidEncoding>)
        ensures
            match r {
                Ok(t) => {
                    &&& valid_utf8(self@)
                    &&& encode_utf8(t@) == self@
                    &&& t@ == decode_utf8(self@)
                },
                Err(e) => {
                    &&& !valid_utf8(self@)
                    &&& e.bytes@ == self@
                    &&& e.valid_up_to <= self@.len()
                    &&& valid_utf8(self@.take(e.valid_up_to as int))
                    &&& forall|j: int|
                        e.valid_up_to < j <= self@.len() ==> !valid_utf8(self@.take(j))
                },
            },
    {
        let Builder(bytes) = self;
        match from_utf8_vec(bytes) {
            Ok(t) => {
                proof {
                    encode_utf8_valid_utf8(t@);
                    encode_utf8_decode_utf8(t@);
                }
                Ok(t)
            },
            Err(p) => Err(InvalidEncoding { valid_up_to: p.0, bytes: p.1 }),
        }
    }
}

/// Relies on `String::from_utf8`: it returns `Ok` exactly when the bytes are
/// well-formed UTF-8, with the string those bytes encode; on failure,
/// `Utf8Error::valid_up_to` is the largest index up to which the bytes are
/// valid UTF-8, and `FromUtf8Error::into_bytes` gives back the input
/// unchanged.
#[verifier::external_body]
fn from_utf8_vec(bytes: Vec<u8>) -> (r: Result<String, (usize, Vec<u8>)>)
    ensures
        match r {
            Ok(t) => encode_utf8(t@) == bytes@,
            Err(p) => {
                &&& !valid_utf8(bytes@)
                &&& p.1@ == bytes@
                &&& p.0 <= bytes@.len()
                &&& valid_utf8(bytes@.take(p.0 as int))
                &&& forall|j: int| p.0 < j <= bytes@.len() ==> !valid_utf8(bytes@.take(j))
            },
        },
{
    match String::from_utf8(bytes) {
        Ok(t) => Ok(t),
        Err(e) => {
            let valid_up_to = e.utf8_error().valid_up_to();
            Err((valid_up_to, e.into_bytes()))
        },
    }
}

} // verus!
