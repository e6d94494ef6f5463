//! The error taxonomy: engine-reported failures passed through unchanged,
//! plus the one failure this layer itself raises, `ReadOnly`.

use vstd::prelude::*;

verus! {

/// Return code of the engine for success.
pub const ENGINE_SUCCESS: i32 = 0;
/// Return code of the engine for a key/data pair that already exists.
pub const ENGINE_KEY_EXIST: i32 = -30799;
/// Return code of the engine for a key/data pair that was not found.
pub const ENGINE_NOT_FOUND: i32 = -30798;
/// Return code of the engine for a page that was not found (corruption).
pub const ENGINE_PAGE_NOT_FOUND: i32 = -30797;
/// Return code of the engine for a page of the wrong type (corruption).
pub const ENGINE_CORRUPTED: i32 = -30796;
/// Return code of the engine for an unsupported key or value size.
pub const ENGINE_BAD_VAL_SIZE: i32 = -30781;
/// Return code of the engine for a full memory map.
pub const ENGINE_MAP_FULL: i32 = -30792;
/// Operating-system code for an invalid argument (EINVAL), as the engine
/// reports it for a misused call such as reading an unpositioned cursor.
pub const ENGINE_INVALID_ARG: i32 = 22;

/// One failure of any operation of this layer.
///
/// Every engine failure is surfaced unchanged through `from_engine_code`;
/// `ReadOnly` is raised only by this layer, when a mutating operation is
/// attempted on a read-only transaction, and never comes from the engine.
#[derive(Clone, Copy, Debug, PartialEq, Eq, Structural)]
pub enum Error {
    /// The requested key/data pair is not in the bucket.
    NotFound,
    /// The key/data pair already exists.
    KeyExist,
    /// A size or format violation: an unsupported key or value size, or
    /// stored bytes that are not a valid encoding of the requested type.
    InvalidInput,
    /// The engine found a corrupted or mistyped page.
    Corrupted,
    /// The operating system reported a failure; the field holds its code.
    IoFailure(i32),
    /// The environment's memory map is full.
    MapFull,
    /// A mutating operation was attempted on a read-only transaction.
    ReadOnly,
    /// Any other engine-reported failure, by its raw return code.
    Other(i32),
}

impl Error {
    /// The variant that a raw engine return code translates to.
    ///
    /// Positive codes are operating-system error numbers passed through by
    /// the engine; every unknown negative code is kept under `Other`.
    pub open spec fn spec_from_engine_code(code: i32) -> Error {
        if code == ENGINE_NOT_FOUND {
            Error::NotFound
        } else if code == ENGINE_KEY_EXIST {
            Error::KeyExist
        } else if code == ENGINE_BAD_VAL_SIZE {
            Error::InvalidInput
        } else if code == ENGINE_CORRUPTED || code == ENGINE_PAGE_NOT_FOUND {
            Error::Corrupted
        } else if code == ENGINE_MAP_FULL {
            Error::MapFull
        } else if code > 0 {
            Error::IoFailure(code)
        } else {
            Error::Other(code)
        }
    }

    /// Translates a raw engine return code into the taxonomy.
    pub fn from_engine_code(code: i32) -> (r: Error)
        ensures
            r == Error::spec_from_engine_code(code),
    {
        if code == ENGINE_NOT_FOUND {
            Error::NotFound
        } else if code == ENGINE_KEY_EXIST {
            Error::KeyExist
        } else if code == ENGINE_BAD_VAL_SIZE {
            Error::InvalidInput
        } else if code == ENGINE_CORRUPTED || code == ENGINE_PAGE_NOT_FOUND {
            Error::Corrupted
        } else if code == ENGINE_MAP_FULL {
            Error::MapFull
        } else if code > 0 {
            Error::IoFailure(code)
        } else {
            Error::Other(code)
        }
    }
}

/// Law: the engine-code translation never yields `ReadOnly`. That variant is
/// raised purely by this layer, before any engine call is made.
pub proof fn lemma_engine_code_never_read_only(code: i32)
    ensures
        Error::spec_from_engine_code(code) != Error::ReadOnly,
{
}

} // verus!
