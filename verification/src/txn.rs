//! The transaction abstraction: wraps exactly one read-only or read-write
//! engine transaction, exposes typed get/set/delete and cursor-opening
//! operations over buckets, guards every mutating path on the read-only
//! variant, and owns commit and abort.

use vstd::prelude::*;

use crate::cursor::{ReadCursor, WriteCursor};
use crate::engine::{
    ro_snapshot, ro_txn_abort, ro_txn_commit, ro_txn_get, ro_txn_open_cursor, rw_snapshot,
    rw_txn_abort, rw_txn_commit, rw_txn_del, rw_txn_get, rw_txn_open_ro_cursor,
    rw_txn_open_rw_cursor, rw_txn_put,
};
use crate::error::Error;
use crate::order::entries_of_bucket;
use crate::store::Bucket;
use crate::types::{Key, Value};

verus! {

/// A transaction over the environment: exactly one of a read-only or a
/// read-write engine transaction. Commit and abort consume it; every other
/// operation borrows it, exclusively where mutation is intended.
pub enum Txn<'env> {
    ReadOnly(lmdb::RoTransaction<'env>),
    ReadWrite(lmdb::RwTransaction<'env>),
}

impl<'env> Txn<'env> {
    /// Whether this is the read-only variant, on which `set`, `del` and
    /// `write_cursor` fail with `Error::ReadOnly`.
    pub open spec fn is_read_only(self) -> bool {
        self is ReadOnly
    }

    /// The contents this transaction observes, keyed by bucket identifier
    /// and key bytes: its snapshot of the store, together with its own
    /// pending writes on the read-write variant.
    pub open spec fn store(self) -> Map<(int, Seq<u8>), Seq<u8>> {
        match self {
            Txn::ReadOnly(t) => ro_snapshot(t),
            Txn::ReadWrite(t) => rw_snapshot(t),
        }
    }

    /// Wraps an already-opened read-only engine transaction.
    pub fn read_only(t: lmdb::RoTransaction<'env>) -> (r: Txn<'env>)
        ensures
            r == Txn::ReadOnly(t),
    {
        Txn::ReadOnly(t)
    }

    /// Wraps an already-opened read-write engine transaction.
    pub fn read_write(t: lmdb::RwTransaction<'env>) -> (r: Txn<'env>)
        ensures
            r == Txn::ReadWrite(t),
    {
        Txn::ReadWrite(t)
    }

    /// Looks up `key` in `bucket` and reconstructs a `V` from the stored
    /// bytes. A success returns a view of exactly the stored bytes, which
    /// were a valid encoding of `V`; `Error::NotFound` comes only when the
    /// key is absent; any engine cause (corruption, an I/O failure) is
    /// passed through unchanged, and is never `Error::ReadOnly`.
    pub fn get<K: Key, V: Value>(&self, bucket: &Bucket, key: K) -> (r: Result<V, Error>)
        ensures
            r is Ok ==> self.store().contains_key((bucket.id(), key.key_bytes()))
                && V::raw_valid(self.store()[(bucket.id(), key.key_bytes())])
                && r->Ok_0.value_bytes() == self.store()[(bucket.id(), key.key_bytes())],
            r == Err::<V, Error>(Error::NotFound) ==> !self.store().contains_key(
                (bucket.id(), key.key_bytes()),
            ),
            r is Err ==> r->Err_0 != Error::ReadOnly,
    {
        let k = key.raw_key();
        let res = match self {
            Txn::ReadOnly(t) => ro_txn_get(t, bucket.db(), k.as_slice()),
            Txn::ReadWrite(t) => rw_txn_get(t, bucket.db(), k.as_slice()),
        };
        match res {
            Ok(raw) => V::from_raw(raw),
            Err(code) => Err(Error::from_engine_code(code)),
        }
    }

    /// Inserts or overwrites the entry for `key` in `bucket` — overwriting
    /// is the default policy, so it never fails with `Error::KeyExist`. On
    /// the read-only variant it fails with `Error::ReadOnly` and performs
    /// no mutation; otherwise a success on a default-flag bucket is visible
    /// to every subsequent read of this transaction, and a failure leaves
    /// the contents as they were.
    pub fn set<K: Key, V: Value>(&mut self, bucket: &Bucket, key: K, val: V) -> (r: Result<
        (),
        Error,
    >)
        ensures
            old(self).is_read_only() ==> r == Err::<(), Error>(Error::ReadOnly) && *final(self)
                == *old(self),
            !old(self).is_read_only() ==> {
                &&& !final(self).is_read_only()
                &&& r is Ok && bucket.is_default() ==> final(self).store() == old(
                    self,
                ).store().insert((bucket.id(), key.key_bytes()), val.value_bytes())
                &&& r is Err ==> final(self).store() == old(self).store() && r->Err_0
                    != Error::ReadOnly && r->Err_0 != Error::KeyExist
            },
    {
        match self {
            Txn::ReadOnly(_) => Err(Error::ReadOnly),
            Txn::ReadWrite(t) => {
                let k = key.raw_key();
                let v = val.raw_value();
                match rw_txn_put(t, bucket.db(), k.as_slice(), v.as_slice()) {
                    Ok(()) => Ok(()),
                    Err(code) => Err(Error::from_engine_code(code)),
                }
            },
        }
    }

    /// Removes the entry for `key` in `bucket`. On the read-only variant it
    /// fails with `Error::ReadOnly` and performs no mutation; otherwise a
    /// success removes exactly the entry, which was present,
    /// `Error::NotFound` comes only when the key is absent, and any failure
    /// leaves the contents as they were.
    pub fn del<K: Key>(&mut self, bucket: &Bucket, key: K) -> (r: Result<(), Error>)
        ensures
            old(self).is_read_only() ==> r == Err::<(), Error>(Error::ReadOnly) && *final(self)
                == *old(self),
            !old(self).is_read_only() ==> ({
                let k = (bucket.id(), key.key_bytes());
                &&& !final(self).is_read_only()
                &&& r is Ok ==> old(self).store().contains_key(k) && final(self).store() == old(
                    self,
                ).store().remove(k)
                &&& r == Err::<(), Error>(Error::NotFound) ==> !old(self).store().contains_key(k)
                &&& r is Err ==> final(self).store() == old(self).store() && r->Err_0
                    != Error::ReadOnly
            }),
    {
        match self {
            Txn::ReadOnly(_) => Err(Error::ReadOnly),
            Txn::ReadWrite(t) => {
                let k = key.raw_key();
                match rw_txn_del(t, bucket.db(), k.as_slice()) {
                    Ok(()) => Ok(()),
                    Err(code) => Err(Error::from_engine_code(code)),
                }
            },
        }
    }

    /// Opens a read-only cursor over `bucket`, scoped to this transaction's
    /// borrow; it is available on both variants, so it never fails with
    /// `Error::ReadOnly`. The cursor starts unpositioned and, on a
    /// default-flag bucket, walks the contents this transaction observes in
    /// ascending key order.
    pub fn read_cursor<'a>(&'a self, bucket: &Bucket) -> (r: Result<ReadCursor<'a>, Error>)
        ensures
            r is Ok ==> r->Ok_0.pos() == -1 && (bucket.is_default() ==> entries_of_bucket(
                r->Ok_0.entries(),
                self.store(),
                bucket.id(),
            )),
            r is Err ==> r->Err_0 != Error::ReadOnly,
    {
        let res = match self {
            Txn::ReadOnly(t) => ro_txn_open_cursor(t, bucket.db()),
            Txn::ReadWrite(t) => rw_txn_open_ro_cursor(t, bucket.db()),
        };
        match res {
            Ok(c) => Ok(ReadCursor::wrap(c)),
            Err(code) => Err(Error::from_engine_code(code)),
        }
    }

    /// Opens a read-write cursor over `bucket`, scoped to this transaction's
    /// exclusive borrow. On the read-only variant it fails with
    /// `Error::ReadOnly` and performs no mutation; on the read-write variant
    /// a failure is the engine's, passed through unchanged, with the
    /// contents as they were. A new cursor starts unpositioned and, on a
    /// default-flag bucket, walks the contents this transaction observed at
    /// opening, in ascending key order; it may mutate the bucket, so nothing
    /// is stated of this transaction's contents once the cursor's borrow
    /// ends.
    pub fn write_cursor<'a>(&'a mut self, bucket: &Bucket) -> (r: Result<WriteCursor<'a>, Error>)
        ensures
            old(self).is_read_only() ==> r == Err::<WriteCursor<'a>, Error>(Error::ReadOnly)
                && *final(self) == *old(self),
            !old(self).is_read_only() ==> {
                &&& !final(self).is_read_only()
                &&& r is Ok ==> r->Ok_0.pos() == -1 && r->Ok_0.on_default_db()
                    == bucket.is_default() && (bucket.is_default() ==> entries_of_bucket(
                    r->Ok_0.entries(),
                    old(self).store(),
                    bucket.id(),
                ))
                &&& r is Err ==> r->Err_0 != Error::ReadOnly && final(self).store() == old(
                    self,
                ).store()
            },
    {
        match self {
            Txn::ReadOnly(_) => Err(Error::ReadOnly),
            Txn::ReadWrite(t) => {
                match rw_txn_open_rw_cursor(t, bucket.db()) {
                    Ok(c) => Ok(WriteCursor::wrap(c)),
                    Err(code) => Err(Error::from_engine_code(code)),
                }
            },
        }
    }

    /// Consumes the transaction: saves all pending changes atomically on the
    /// read-write variant, or releases the read snapshot. A failure comes
    /// from the engine, never from this layer's read-only guard, and the
    /// transaction is gone either way.
    pub fn commit(self) -> (r: Result<(), Error>)
        ensures
            r is Err ==> r->Err_0 != Error::ReadOnly,
    {
        let res = match self {
            Txn::ReadOnly(t) => ro_txn_commit(t),
            Txn::ReadWrite(t) => rw_txn_commit(t),
        };
        match res {
            Ok(()) => Ok(()),
            Err(code) => Err(Error::from_engine_code(code)),
        }
    }

    /// Consumes the transaction and discards any pending changes
    /// unconditionally; it cannot fail.
    pub fn abort(self) {
        match self {
            Txn::ReadOnly(t) => ro_txn_abort(t),
            Txn::ReadWrite(t) => rw_txn_abort(t),
        }
    }
}

/// Law: within one read-write transaction, a successful `set` is visible to
/// every subsequent `get` of the same transaction: the entered pair is
/// present under exactly its key and value, and every other entry of the
/// store is untouched.
pub proof fn lemma_set_then_get(m: Map<(int, Seq<u8>), Seq<u8>>, d: int, k: Seq<u8>, v: Seq<u8>)
    ensures
        m.insert((d, k), v).contains_key((d, k)),
        m.insert((d, k), v)[(d, k)] == v,
        forall|p: (int, Seq<u8>)|
            p != (d, k) ==> #[trigger] m.insert((d, k), v).contains_key(p) == m.contains_key(p),
        forall|p: (int, Seq<u8>)|
            p != (d, k) && m.contains_key(p) ==> #[trigger] m.insert((d, k), v)[p] == m[p],
{
}

} // verus!
