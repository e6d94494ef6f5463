//! Positionable iteration over a bucket's ordered key space, in a read-only
//! and a read-write variant. A cursor is scoped to its parent transaction's
//! borrow and walks the bucket's entries in ascending byte-lexicographic
//! key order.

use vstd::prelude::*;

use crate::engine::{
    ro_cursor_current, ro_cursor_entries, ro_cursor_next, ro_cursor_pos, ro_cursor_prev,
    ro_cursor_seek, rw_cursor_current, rw_cursor_default_db, rw_cursor_del, rw_cursor_entries,
    rw_cursor_next, rw_cursor_pos, rw_cursor_prev, rw_cursor_put, rw_cursor_seek,
};
use crate::error::Error;
use crate::order::{entry_insert, index_of_key};
use crate::types::{Key, Value};

verus! {

/// A read-only cursor over one bucket, scoped to its parent transaction.
pub struct ReadCursor<'txn> {
    inner: lmdb::RoCursor<'txn>,
}

impl<'txn> ReadCursor<'txn> {
    /// The entries this cursor walks, in ascending key order.
    pub closed spec fn entries(self) -> Seq<(Seq<u8>, Seq<u8>)> {
        ro_cursor_entries(self.inner)
    }

    /// The cursor's position: an index into `entries()`, or `-1` while the
    /// cursor is not yet positioned.
    pub closed spec fn pos(self) -> int {
        ro_cursor_pos(self.inner)
    }

    pub(crate) fn wrap(inner: lmdb::RoCursor<'txn>) -> (r: ReadCursor<'txn>)
        ensures
            r.entries() == ro_cursor_entries(inner),
            r.pos() == ro_cursor_pos(inner),
    {
        ReadCursor { inner }
    }

    /// Moves to the next entry and returns it; from an unpositioned cursor,
    /// to the first. Fails with `Error::NotFound` exactly past the last
    /// entry; any engine failure is passed through, and is never
    /// `Error::ReadOnly`.
    pub fn next(&mut self) -> (r: Result<(Vec<u8>, Vec<u8>), Error>)
        ensures
            final(self).entries() == old(self).entries(),
            ({
                let s = old(self).entries();
                let p = old(self).pos();
                let np: int = if p < 0 { 0 } else { p + 1 };
                &&& r is Ok ==> 0 <= np < s.len() && r->Ok_0.0@ == s[np].0 && r->Ok_0.1@
                    == s[np].1 && final(self).pos() == np
                &&& r == Err::<(Vec<u8>, Vec<u8>), Error>(Error::NotFound) ==> !(0 <= np < s.len())
            }),
            r is Err ==> r->Err_0 != Error::ReadOnly,
    {
        match ro_cursor_next(&mut self.inner) {
            Ok(kv) => Ok(kv),
            Err(code) => Err(Error::from_engine_code(code)),
        }
    }

    /// Moves to the previous entry and returns it; from an unpositioned
    /// cursor, to the last. Fails with `Error::NotFound` exactly before the
    /// first entry; any engine failure is passed through, and is never
    /// `Error::ReadOnly`.
    pub fn prev(&mut self) -> (r: Result<(Vec<u8>, Vec<u8>), Error>)
        ensures
            final(self).entries() == old(self).entries(),
            ({
                let s = old(self).entries();
                let p = old(self).pos();
                let np: int = if p < 0 { s.len() - 1 } else { p - 1 };
                &&& r is Ok ==> 0 <= np < s.len() && r->Ok_0.0@ == s[np].0 && r->Ok_0.1@
                    == s[np].1 && final(self).pos() == np
                &&& r == Err::<(Vec<u8>, Vec<u8>), Error>(Error::NotFound) ==> !(0 <= np < s.len())
            }),
            r is Err ==> r->Err_0 != Error::ReadOnly,
    {
        match ro_cursor_prev(&mut self.inner) {
            Ok(kv) => Ok(kv),
            Err(code) => Err(Error::from_engine_code(code)),
        }
    }

    /// Positions the cursor at the entry with exactly the given key and
    /// returns it. Fails with `Error::NotFound` exactly when no entry has
    /// that key; any engine failure is passed through, and is never
    /// `Error::ReadOnly`.
    pub fn seek<K: Key>(&mut self, key: K) -> (r: Result<(Vec<u8>, Vec<u8>), Error>)
        ensures
            final(self).entries() == old(self).entries(),
            ({
                let s = old(self).entries();
                let i = index_of_key(s, key.key_bytes());
                &&& r is Ok ==> 0 <= i && r->Ok_0.0@ == s[i].0 && r->Ok_0.1@ == s[i].1
                    && final(self).pos() == i
                &&& r == Err::<(Vec<u8>, Vec<u8>), Error>(Error::NotFound) ==> i < 0
            }),
            r is Err ==> r->Err_0 != Error::ReadOnly,
    {
        let k = key.raw_key();
        match ro_cursor_seek(&mut self.inner, k.as_slice()) {
            Ok(kv) => Ok(kv),
            Err(code) => Err(Error::from_engine_code(code)),
        }
    }

    /// Returns the entry at the cursor's position without moving it. Fails
    /// on an unpositioned cursor.
    pub fn current(&self) -> (r: Result<(Vec<u8>, Vec<u8>), Error>)
        ensures
            ({
                let s = self.entries();
                let p = self.pos();
                if 0 <= p < s.len() {
                    r is Ok && r->Ok_0.0@ == s[p].0 && r->Ok_0.1@ == s[p].1
                } else {
                    r is Err
                }
            }),
    {
        match ro_cursor_current(&self.inner) {
            Ok(kv) => Ok(kv),
            Err(code) => Err(Error::from_engine_code(code)),
        }
    }
}

/// A read-write cursor over one bucket: the read operations of `ReadCursor`,
/// and in-place put and delete at the current position.
pub struct WriteCursor<'txn> {
    inner: lmdb::RwCursor<'txn>,
}

impl<'txn> WriteCursor<'txn> {
    /// The entries this cursor walks, in ascending key order.
    pub closed spec fn entries(self) -> Seq<(Seq<u8>, Seq<u8>)> {
        rw_cursor_entries(self.inner)
    }

    /// The cursor's position: an index into `entries()`, or `-1` while the
    /// cursor is not yet positioned.
    pub closed spec fn pos(self) -> int {
        rw_cursor_pos(self.inner)
    }

    /// The bucket this cursor walks was opened with default flags; `put`'s
    /// insert-replace contract holds under it. Established by opening the
    /// cursor on a bucket that `Bucket::checked` confirmed.
    pub closed spec fn on_default_db(self) -> bool {
        rw_cursor_default_db(self.inner)
    }

    pub(crate) fn wrap(inner: lmdb::RwCursor<'txn>) -> (r: WriteCursor<'txn>)
        ensures
            r.entries() == rw_cursor_entries(inner),
            r.pos() == rw_cursor_pos(inner),
            r.on_default_db() == rw_cursor_default_db(inner),
    {
        WriteCursor { inner }
    }

    /// Moves to the next entry and returns it; from an unpositioned cursor,
    /// to the first. Fails with `Error::NotFound` exactly past the last
    /// entry; any engine failure is passed through, and is never
    /// `Error::ReadOnly`.
    pub fn next(&mut self) -> (r: Result<(Vec<u8>, Vec<u8>), Error>)
        ensures
            final(self).entries() == old(self).entries(),
            final(self).on_default_db() == old(self).on_default_db(),
            ({
                let s = old(self).entries();
                let p = old(self).pos();
                let np: int = if p < 0 { 0 } else { p + 1 };
                &&& r is Ok ==> 0 <= np < s.len() && r->Ok_0.0@ == s[np].0 && r->Ok_0.1@
                    == s[np].1 && final(self).pos() == np
                &&& r == Err::<(Vec<u8>, Vec<u8>), Error>(Error::NotFound) ==> !(0 <= np < s.len())
            }),
            r is Err ==> r->Err_0 != Error::ReadOnly,
    {
        match rw_cursor_next(&mut self.inner) {
            Ok(kv) => Ok(kv),
            Err(code) => Err(Error::from_engine_code(code)),
        }
    }

    /// Moves to the previous entry and returns it; from an unpositioned
    /// cursor, to the last. Fails with `Error::NotFound` exactly before the
    /// first entry; any engine failure is passed through, and is never
    /// `Error::ReadOnly`.
    pub fn prev(&mut self) -> (r: Result<(Vec<u8>, Vec<u8>), Error>)
        ensures
            final(self).entries() == old(self).entries(),
            final(self).on_default_db() == old(self).on_default_db(),
            ({
                let s = old(self).entries();
                let p = old(self).pos();
                let np: int = if p < 0 { s.len() - 1 } else { p - 1 };
                &&& r is Ok ==> 0 <= np < s.len() && r->Ok_0.0@ == s[np].0 && r->Ok_0.1@
                    == s[np].1 && final(self).pos() == np
                &&& r == Err::<(Vec<u8>, Vec<u8>), Error>(Error::NotFound) ==> !(0 <= np < s.len())
            }),
            r is Err ==> r->Err_0 != Error::ReadOnly,
    {
        match rw_cursor_prev(&mut self.inner) {
            Ok(kv) => Ok(kv),
            Err(code) => Err(Error::from_engine_code(code)),
        }
    }

    /// Positions the cursor at the entry with exactly the given key and
    /// returns it. Fails with `Error::NotFound` exactly when no entry has
    /// that key; any engine failure is passed through, and is never
    /// `Error::ReadOnly`.
    pub fn seek<K: Key>(&mut self, key: K) -> (r: Result<(Vec<u8>, Vec<u8>), Error>)
        ensures
            final(self).entries() == old(self).entries(),
            final(self).on_default_db() == old(self).on_default_db(),
            ({
                let s = old(self).entries();
                let i = index_of_key(s, key.key_bytes());
                &&& r is Ok ==> 0 <= i && r->Ok_0.0@ == s[i].0 && r->Ok_0.1@ == s[i].1
                    && final(self).pos() == i
                &&& r == Err::<(Vec<u8>, Vec<u8>), Error>(Error::NotFound) ==> i < 0
            }),
            r is Err ==> r->Err_0 != Error::ReadOnly,
    {
        let k = key.raw_key();
        match rw_cursor_seek(&mut self.inner, k.as_slice()) {
            Ok(kv) => Ok(kv),
            Err(code) => Err(Error::from_engine_code(code)),
        }
    }

    /// Returns the entry at the cursor's position without moving it. Fails
    /// on an unpositioned cursor.
    pub fn current(&self) -> (r: Result<(Vec<u8>, Vec<u8>), Error>)
        ensures
            ({
                let s = self.entries();
                let p = self.pos();
                if 0 <= p < s.len() {
                    r is Ok && r->Ok_0.0@ == s[p].0 && r->Ok_0.1@ == s[p].1
                } else {
                    r is Err
                }
            }),
    {
        match rw_cursor_current(&self.inner) {
            Ok(kv) => Ok(kv),
            Err(code) => Err(Error::from_engine_code(code)),
        }
    }

    /// Enters the key/value pair at its place in key order — on a
    /// default-flag bucket a success replaces any existing entry for the
    /// key and leaves the cursor positioned at the new entry. A failure
    /// leaves the entries as they were, and is never `Error::ReadOnly`.
    pub fn put<K: Key, V: Value>(&mut self, key: K, val: V) -> (r: Result<(), Error>)
        ensures
            final(self).on_default_db() == old(self).on_default_db(),
            r is Ok && old(self).on_default_db() ==> ({
                let s2 = entry_insert(old(self).entries(), key.key_bytes(), val.value_bytes());
                final(self).entries() == s2 && final(self).pos() == index_of_key(
                    s2,
                    key.key_bytes(),
                )
            }),
            r is Err ==> final(self).entries() == old(self).entries() && r->Err_0
                != Error::ReadOnly,
    {
        let k = key.raw_key();
        let v = val.raw_value();
        match rw_cursor_put(&mut self.inner, k.as_slice(), v.as_slice()) {
            Ok(()) => Ok(()),
            Err(code) => Err(Error::from_engine_code(code)),
        }
    }

    /// Deletes the entry at the cursor's position; a success removes
    /// exactly that entry, which was valid. A failure (an unpositioned
    /// cursor among the causes) leaves the entries as they were, and is
    /// never `Error::ReadOnly`.
    pub fn del(&mut self) -> (r: Result<(), Error>)
        ensures
            final(self).on_default_db() == old(self).on_default_db(),
            ({
                let s = old(self).entries();
                let p = old(self).pos();
                &&& r is Ok ==> 0 <= p < s.len() && final(self).entries() == s.remove(p)
                &&& r is Err ==> final(self).entries() == s
            }),
            r is Err ==> r->Err_0 != Error::ReadOnly,
    {
        match rw_cursor_del(&mut self.inner) {
            Ok(()) => Ok(()),
            Err(code) => Err(Error::from_engine_code(code)),
        }
    }
}

} // verus!
