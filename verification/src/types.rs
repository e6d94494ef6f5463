//! The capability contracts for keys and values: what a type must provide to
//! serve as an ordered key, or to be written to and reconstructed from the
//! engine's raw byte representation.

use vstd::prelude::*;

use vstd::string::{StrSliceExecFns, StringSliceAdditionalSpecFns};

use crate::error::Error;

verus! {

/// A type usable as a key: it exposes a byte-sequence view of itself.
/// Keys are ordered lexicographically over these bytes, matching the
/// engine's default ordering.
pub trait Key {
    /// The byte representation this key serializes to.
    spec fn key_bytes(&self) -> Seq<u8>;

    /// Produces the byte representation of this key.
    fn raw_key(&self) -> (r: Vec<u8>)
        ensures
            r@ == self.key_bytes(),
    ;
}

/// A type usable as a value: it produces a byte representation for writing
/// and can be reconstructed from stored bytes. Each implementing type
/// decides which byte sequences are valid encodings of it.
pub trait Value: Sized {
    /// The byte representation this value serializes to.
    spec fn value_bytes(&self) -> Seq<u8>;

    /// Whether `raw` is a valid encoding of some value of this type.
    spec fn raw_valid(raw: Seq<u8>) -> bool;

    /// Produces the byte representation of this value. What a value
    /// serializes to is a valid encoding of its own type, so a stored value
    /// can always be reconstructed.
    fn raw_value(&self) -> (r: Vec<u8>)
        ensures
            r@ == self.value_bytes(),
            Self::raw_valid(r@),
    ;

    /// Reconstructs a value from stored bytes. Fails with
    /// `Error::InvalidInput` exactly when the bytes are not a valid
    /// encoding; on success the reconstructed value serializes back to the
    /// same bytes.
    fn from_raw(raw: Vec<u8>) -> (r: Result<Self, Error>)
        ensures
            Self::raw_valid(raw@) ==> r is Ok && r->Ok_0.value_bytes() == raw@,
            !Self::raw_valid(raw@) ==> r == Err::<Self, Error>(Error::InvalidInput),
    ;
}

impl<'a> Key for &'a str {
    open spec fn key_bytes(&self) -> Seq<u8> {
        self.spec_bytes()
    }

    fn raw_key(&self) -> (r: Vec<u8>) {
        self.as_bytes_vec()
    }
}

impl Key for Vec<u8> {
    open spec fn key_bytes(&self) -> Seq<u8> {
        self@
    }

    fn raw_key(&self) -> (r: Vec<u8>) {
        self.clone()
    }
}

impl Value for Vec<u8> {
    open spec fn value_bytes(&self) -> Seq<u8> {
        self@
    }

    open spec fn raw_valid(raw: Seq<u8>) -> bool {
        true
    }

    fn raw_value(&self) -> (r: Vec<u8>) {
        self.clone()
    }

    fn from_raw(raw: Vec<u8>) -> (r: Result<Self, Error>) {
        Ok(raw)
    }
}

} // verus!
