//! The trusted boundary to the storage engine (the `lmdb` crate). Everything
//! here either declares an engine type or wraps one engine call; each
//! wrapper's contract states only what the engine's source and documentation
//! show. Nothing else in the crate talks to the engine directly.
//!
//! The contents a transaction observes are modelled as a map from
//! `(bucket identifier, key bytes)` to value bytes; the entries a cursor
//! walks are modelled as a sequence in ascending key order, with a position.
//! Success is never promised — the engine may refuse any call (a full map, a
//! corrupted page, a transaction already broken by a failed write) — so the
//! contracts say what holds of each outcome: what a success returns, which
//! failure code owns which meaning, and that the named contents only change
//! as stated. The order and uniqueness claims hold of databases opened with
//! default flags (see `database_default_flags`); on other configurations
//! (duplicate keys, reversed comparison) the engine behaves differently, and
//! those claims are conditioned accordingly.

use vstd::prelude::*;

use lmdb::Transaction;

use crate::error::{ENGINE_INVALID_ARG, ENGINE_KEY_EXIST, ENGINE_NOT_FOUND};
use crate::order::{entries_of_bucket, entry_insert, index_of_key};

verus! {

#[verifier::external_type_specification]
#[verifier::external_body]
pub struct ExDatabase(lmdb::Database);

#[verifier::external_type_specification]
#[verifier::external_body]
pub struct ExRoTransaction<'env>(lmdb::RoTransaction<'env>);

#[verifier::external_type_specification]
#[verifier::external_body]
pub struct ExRwTransaction<'env>(lmdb::RwTransaction<'env>);

#[verifier::external_type_specification]
#[verifier::external_body]
pub struct ExRoCursor<'txn>(lmdb::RoCursor<'txn>);

#[verifier::external_type_specification]
#[verifier::external_body]
pub struct ExRwCursor<'txn>(lmdb::RwCursor<'txn>);

/// The identifier of the sub-database a handle names.
pub uninterp spec fn database_id(d: lmdb::Database) -> int;

/// The database behind the handle was opened with default flags: unique
/// keys, compared byte-lexicographically, one data item per key. The
/// insert-replace and ordered-walk claims below hold only under it.
pub uninterp spec fn database_default_flags(d: lmdb::Database) -> bool;

/// The contents a read-only transaction observes: its snapshot of the store,
/// keyed by bucket identifier and key bytes.
pub uninterp spec fn ro_snapshot(t: lmdb::RoTransaction) -> Map<(int, Seq<u8>), Seq<u8>>;

/// The contents a read-write transaction observes: its snapshot of the
/// store together with its own pending writes.
pub uninterp spec fn rw_snapshot(t: lmdb::RwTransaction) -> Map<(int, Seq<u8>), Seq<u8>>;

/// The entries a read-only cursor walks, in ascending key order.
pub uninterp spec fn ro_cursor_entries(c: lmdb::RoCursor) -> Seq<(Seq<u8>, Seq<u8>)>;

/// The position of a read-only cursor: an index into its entries, or `-1`
/// while the cursor is not yet positioned.
pub uninterp spec fn ro_cursor_pos(c: lmdb::RoCursor) -> int;

/// The entries a read-write cursor walks, in ascending key order.
pub uninterp spec fn rw_cursor_entries(c: lmdb::RwCursor) -> Seq<(Seq<u8>, Seq<u8>)>;

/// The position of a read-write cursor: an index into its entries, or `-1`
/// while the cursor is not yet positioned.
pub uninterp spec fn rw_cursor_pos(c: lmdb::RwCursor) -> int;

/// The database a read-write cursor walks was opened with default flags.
pub uninterp spec fn rw_cursor_default_db(c: lmdb::RwCursor) -> bool;

/// Relies on `lmdb::Database::dbi`: a database handle denotes one
/// sub-database, by an identifier that does not change.
#[verifier::external_body]
pub(crate) fn dbi_of(d: &lmdb::Database) -> (r: u32)
    ensures
        r as int == database_id(*d),
{
    d.dbi()
}

/// Relies on `lmdb::Transaction::db_flags` on a read-only transaction: it
/// returns the flags the database was opened with, which do not change over
/// the database's life; zero means the default configuration.
#[verifier::external_body]
pub(crate) fn ro_txn_db_flags(t: &lmdb::RoTransaction, db: &lmdb::Database) -> (r: Result<
    u32,
    i32,
>)
    ensures
        ({
            match r {
                Ok(f) => f == 0 ==> database_default_flags(*db),
                Err(_) => true,
            }
        }),
{
    match t.db_flags(*db) {
        Ok(f) => Ok(f.bits()),
        Err(e) => Err(e.to_err_code()),
    }
}

/// Relies on `lmdb::Transaction::db_flags` on a read-write transaction; as
/// for the read-only one.
#[verifier::external_body]
pub(crate) fn rw_txn_db_flags(t: &lmdb::RwTransaction, db: &lmdb::Database) -> (r: Result<
    u32,
    i32,
>)
    ensures
        ({
            match r {
                Ok(f) => f == 0 ==> database_default_flags(*db),
                Err(_) => true,
            }
        }),
{
    match t.db_flags(*db) {
        Ok(f) => Ok(f.bits()),
        Err(e) => Err(e.to_err_code()),
    }
}

/// Relies on `lmdb::Transaction::get` on a read-only transaction: a success
/// returns the bytes stored under the key, and `MDB_NOTFOUND` comes exactly
/// when the key is absent. Any other failure code is left open.
#[verifier::external_body]
pub(crate) fn ro_txn_get(t: &lmdb::RoTransaction, db: &lmdb::Database, key: &[u8]) -> (r: Result<
    Vec<u8>,
    i32,
>)
    ensures
        ({
            let k = (database_id(*db), key@);
            match r {
                Ok(v) => ro_snapshot(*t).contains_key(k) && v@ == ro_snapshot(*t)[k],
                Err(code) => ro_snapshot(*t).contains_key(k) ==> code != ENGINE_NOT_FOUND,
            }
        }),
{
    match t.get(*db, &key) {
        Ok(bytes) => Ok(bytes.to_vec()),
        Err(e) => Err(e.to_err_code()),
    }
}

/// Relies on `lmdb::Transaction::get` on a read-write transaction: as for
/// the read-only one, pending writes of the same transaction included.
#[verifier::external_body]
pub(crate) fn rw_txn_get(t: &lmdb::RwTransaction, db: &lmdb::Database, key: &[u8]) -> (r: Result<
    Vec<u8>,
    i32,
>)
    ensures
        ({
            let k = (database_id(*db), key@);
            match r {
                Ok(v) => rw_snapshot(*t).contains_key(k) && v@ == rw_snapshot(*t)[k],
                Err(code) => rw_snapshot(*t).contains_key(k) ==> code != ENGINE_NOT_FOUND,
            }
        }),
{
    match t.get(*db, &key) {
        Ok(bytes) => Ok(bytes.to_vec()),
        Err(e) => Err(e.to_err_code()),
    }
}

/// Relies on `lmdb::RwTransaction::put` with empty write flags: on a
/// default-flag database a success enters the key/data pair, replacing any
/// existing entry for the key. A failure leaves the entered data as it was,
/// and is never `MDB_KEYEXIST`: the engine reports that code only under the
/// no-overwrite family of flags, which are never passed here.
#[verifier::external_body]
pub(crate) fn rw_txn_put(
    t: &mut lmdb::RwTransaction,
    db: &lmdb::Database,
    key: &[u8],
    val: &[u8],
) -> (r: Result<(), i32>)
    ensures
        r is Ok && database_default_flags(*db) ==> rw_snapshot(*final(t)) == rw_snapshot(
            *old(t),
        ).insert((database_id(*db), key@), val@),
        r is Err ==> rw_snapshot(*final(t)) == rw_snapshot(*old(t)) && r->Err_0
            != ENGINE_KEY_EXIST,
{
    match t.put(*db, &key, &val, lmdb::WriteFlags::empty()) {
        Ok(()) => Ok(()),
        Err(e) => Err(e.to_err_code()),
    }
}

/// Relies on `lmdb::RwTransaction::del` with no data parameter: a success
/// removes the entry for the key, which was present; `MDB_NOTFOUND` comes
/// exactly when the key is absent; any failure leaves the entered data as
/// it was.
#[verifier::external_body]
pub(crate) fn rw_txn_del(t: &mut lmdb::RwTransaction, db: &lmdb::Database, key: &[u8]) -> (r:
    Result<(), i32>)
    ensures
        ({
            let k = (database_id(*db), key@);
            match r {
                Ok(_) => rw_snapshot(*old(t)).contains_key(k) && rw_snapshot(*final(t))
                    == rw_snapshot(*old(t)).remove(k),
                Err(code) => rw_snapshot(*final(t)) == rw_snapshot(*old(t)) && (rw_snapshot(
                    *old(t),
                ).contains_key(k) ==> code != ENGINE_NOT_FOUND),
            }
        }),
{
    match t.del(*db, &key, None) {
        Ok(()) => Ok(()),
        Err(e) => Err(e.to_err_code()),
    }
}

/// Relies on `lmdb::Transaction::commit` on a read-only transaction: it
/// releases the read snapshot.
#[verifier::external_body]
pub(crate) fn ro_txn_commit(t: lmdb::RoTransaction) -> (r: Result<(), i32>)
{
    match t.commit() {
        Ok(()) => Ok(()),
        Err(e) => Err(e.to_err_code()),
    }
}

/// Relies on `lmdb::Transaction::commit` on a read-write transaction: it
/// saves all pending operations; the handle is gone either way.
#[verifier::external_body]
pub(crate) fn rw_txn_commit(t: lmdb::RwTransaction) -> (r: Result<(), i32>)
{
    match t.commit() {
        Ok(()) => Ok(()),
        Err(e) => Err(e.to_err_code()),
    }
}

/// Relies on `lmdb::Transaction::open_ro_cursor` on a read-only
/// transaction: a new cursor starts unpositioned, and on a default-flag
/// database it walks the named sub-database's entries in ascending key
/// order.
#[verifier::external_body]
pub(crate) fn ro_txn_open_cursor<'t>(t: &'t lmdb::RoTransaction, db: &lmdb::Database) -> (r:
    Result<lmdb::RoCursor<'t>, i32>)
    ensures
        r is Ok ==> ro_cursor_pos(r->Ok_0) == -1 && (database_default_flags(*db)
            ==> entries_of_bucket(ro_cursor_entries(r->Ok_0), ro_snapshot(*t), database_id(*db))),
{
    match t.open_ro_cursor(*db) {
        Ok(c) => Ok(c),
        Err(e) => Err(e.to_err_code()),
    }
}

/// Relies on `lmdb::Transaction::open_ro_cursor` on a read-write
/// transaction: as for a read-only one, over the contents this transaction
/// observes, pending writes included.
#[verifier::external_body]
pub(crate) fn rw_txn_open_ro_cursor<'t>(t: &'t lmdb::RwTransaction, db: &lmdb::Database) -> (r:
    Result<lmdb::RoCursor<'t>, i32>)
    ensures
        r is Ok ==> ro_cursor_pos(r->Ok_0) == -1 && (database_default_flags(*db)
            ==> entries_of_bucket(ro_cursor_entries(r->Ok_0), rw_snapshot(*t), database_id(*db))),
{
    match t.open_ro_cursor(*db) {
        Ok(c) => Ok(c),
        Err(e) => Err(e.to_err_code()),
    }
}

/// Relies on `lmdb::RwTransaction::open_rw_cursor`: a new cursor starts
/// unpositioned and remembers its database's configuration; on a
/// default-flag database it walks the entries as the transaction observed
/// them at opening, in ascending key order. The cursor may mutate the
/// store, so nothing is stated of the transaction's contents after a
/// success; a failed open leaves them as they were.
#[verifier::external_body]
pub(crate) fn rw_txn_open_rw_cursor<'t>(t: &'t mut lmdb::RwTransaction, db: &lmdb::Database) -> (r:
    Result<lmdb::RwCursor<'t>, i32>)
    ensures
        r is Ok ==> rw_cursor_pos(r->Ok_0) == -1 && rw_cursor_default_db(r->Ok_0)
            == database_default_flags(*db) && (database_default_flags(*db) ==> entries_of_bucket(
            rw_cursor_entries(r->Ok_0),
            rw_snapshot(*old(t)),
            database_id(*db),
        )),
        r is Err ==> rw_snapshot(*final(t)) == rw_snapshot(*old(t)),
{
    match t.open_rw_cursor(*db) {
        Ok(c) => Ok(c),
        Err(e) => Err(e.to_err_code()),
    }
}

/// Relies on `lmdb::Cursor::get` with the `MDB_NEXT` operation (code 8): a
/// success has moved to and returned the next entry, the first for an
/// unpositioned cursor; `MDB_NOTFOUND` comes exactly past the last entry.
/// Any other failure code is left open.
#[verifier::external_body]
pub(crate) fn ro_cursor_next(c: &mut lmdb::RoCursor) -> (r: Result<(Vec<u8>, Vec<u8>), i32>)
    ensures
        ro_cursor_entries(*final(c)) == ro_cursor_entries(*old(c)),
        ({
            let s = ro_cursor_entries(*old(c));
            let p = ro_cursor_pos(*old(c));
            let np: int = if p < 0 { 0 } else { p + 1 };
            &&& r is Ok ==> 0 <= np < s.len() && r->Ok_0.0@ == s[np].0 && r->Ok_0.1@ == s[np].1
                && ro_cursor_pos(*final(c)) == np
            &&& 0 <= np < s.len() ==> r != Err::<(Vec<u8>, Vec<u8>), i32>(ENGINE_NOT_FOUND)
        }),
{
    match lmdb::Cursor::get(&*c, None, None, 8) {
        Ok((Some(k), v)) => Ok((k.to_vec(), v.to_vec())),
        // The engine returns the entry's key for this operation; a success
        // without one is treated as the engine's invalid-argument failure.
        Ok((None, _)) => Err(ENGINE_INVALID_ARG),
        Err(e) => Err(e.to_err_code()),
    }
}

/// Relies on `lmdb::Cursor::get` with the `MDB_PREV` operation (code 12): a
/// success has moved to and returned the previous entry, the last for an
/// unpositioned cursor; `MDB_NOTFOUND` comes exactly before the first
/// entry. Any other failure code is left open.
#[verifier::external_body]
pub(crate) fn ro_cursor_prev(c: &mut lmdb::RoCursor) -> (r: Result<(Vec<u8>, Vec<u8>), i32>)
    ensures
        ro_cursor_entries(*final(c)) == ro_cursor_entries(*old(c)),
        ({
            let s = ro_cursor_entries(*old(c));
            let p = ro_cursor_pos(*old(c));
            let np: int = if p < 0 { s.len() - 1 } else { p - 1 };
            &&& r is Ok ==> 0 <= np < s.len() && r->Ok_0.0@ == s[np].0 && r->Ok_0.1@ == s[np].1
                && ro_cursor_pos(*final(c)) == np
            &&& 0 <= np < s.len() ==> r != Err::<(Vec<u8>, Vec<u8>), i32>(ENGINE_NOT_FOUND)
        }),
{
    match lmdb::Cursor::get(&*c, None, None, 12) {
        Ok((Some(k), v)) => Ok((k.to_vec(), v.to_vec())),
        // The engine returns the entry's key for this operation; a success
        // without one is treated as the engine's invalid-argument failure.
        Ok((None, _)) => Err(ENGINE_INVALID_ARG),
        Err(e) => Err(e.to_err_code()),
    }
}

/// Relies on `lmdb::Cursor::get` with the `MDB_SET_KEY` operation (code
/// 16): a success has positioned the cursor at the entry with exactly the
/// given key and returned it; `MDB_NOTFOUND` comes exactly when no entry
/// has that key. Any other failure code is left open.
#[verifier::external_body]
pub(crate) fn ro_cursor_seek(c: &mut lmdb::RoCursor, key: &[u8]) -> (r: Result<
    (Vec<u8>, Vec<u8>),
    i32,
>)
    ensures
        ro_cursor_entries(*final(c)) == ro_cursor_entries(*old(c)),
        ({
            let s = ro_cursor_entries(*old(c));
            let i = index_of_key(s, key@);
            &&& r is Ok ==> 0 <= i && r->Ok_0.0@ == s[i].0 && r->Ok_0.1@ == s[i].1
                && ro_cursor_pos(*final(c)) == i
            &&& 0 <= i ==> r != Err::<(Vec<u8>, Vec<u8>), i32>(ENGINE_NOT_FOUND)
        }),
{
    match lmdb::Cursor::get(&*c, Some(key), None, 16) {
        Ok((Some(k), v)) => Ok((k.to_vec(), v.to_vec())),
        // On success the matched entry's key is the sought key.
        Ok((None, v)) => Ok((key.to_vec(), v.to_vec())),
        Err(e) => Err(e.to_err_code()),
    }
}

/// Relies on `lmdb::Cursor::get` with the `MDB_GET_CURRENT` operation (code
/// 4): it returns the entry at the cursor's position without moving it, and
/// fails on an unpositioned cursor.
#[verifier::external_body]
pub(crate) fn ro_cursor_current(c: &lmdb::RoCursor) -> (r: Result<(Vec<u8>, Vec<u8>), i32>)
    ensures
        ({
            let s = ro_cursor_entries(*c);
            let p = ro_cursor_pos(*c);
            if 0 <= p < s.len() {
                r is Ok && r->Ok_0.0@ == s[p].0 && r->Ok_0.1@ == s[p].1
            } else {
                r is Err
            }
        }),
{
    match lmdb::Cursor::get(c, None, None, 4) {
        Ok((Some(k), v)) => Ok((k.to_vec(), v.to_vec())),
        // The engine returns the entry's key for this operation; a success
        // without one is treated as the engine's invalid-argument failure.
        Ok((None, _)) => Err(ENGINE_INVALID_ARG),
        Err(e) => Err(e.to_err_code()),
    }
}

/// Relies on `lmdb::Cursor::get` with the `MDB_NEXT` operation (code 8) on
/// a read-write cursor; as for the read-only cursor.
#[verifier::external_body]
pub(crate) fn rw_cursor_next(c: &mut lmdb::RwCursor) -> (r: Result<(Vec<u8>, Vec<u8>), i32>)
    ensures
        rw_cursor_entries(*final(c)) == rw_cursor_entries(*old(c)),
        rw_cursor_default_db(*final(c)) == rw_cursor_default_db(*old(c)),
        ({
            let s = rw_cursor_entries(*old(c));
            let p = rw_cursor_pos(*old(c));
            let np: int = if p < 0 { 0 } else { p + 1 };
            &&& r is Ok ==> 0 <= np < s.len() && r->Ok_0.0@ == s[np].0 && r->Ok_0.1@ == s[np].1
                && rw_cursor_pos(*final(c)) == np
            &&& 0 <= np < s.len() ==> r != Err::<(Vec<u8>, Vec<u8>), i32>(ENGINE_NOT_FOUND)
        }),
{
    match lmdb::Cursor::get(&*c, None, None, 8) {
        Ok((Some(k), v)) => Ok((k.to_vec(), v.to_vec())),
        // The engine returns the entry's key for this operation; a success
        // without one is treated as the engine's invalid-argument failure.
        Ok((None, _)) => Err(ENGINE_INVALID_ARG),
        Err(e) => Err(e.to_err_code()),
    }
}

/// Relies on `lmdb::Cursor::get` with the `MDB_PREV` operation (code 12) on
/// a read-write cursor; as for the read-only cursor.
#[verifier::external_body]
pub(crate) fn rw_cursor_prev(c: &mut lmdb::RwCursor) -> (r: Result<(Vec<u8>, Vec<u8>), i32>)
    ensures
        rw_cursor_entries(*final(c)) == rw_cursor_entries(*old(c)),
        rw_cursor_default_db(*final(c)) == rw_cursor_default_db(*old(c)),
        ({
            let s = rw_cursor_entries(*old(c));
            let p = rw_cursor_pos(*old(c));
            let np: int = if p < 0 { s.len() - 1 } else { p - 1 };
            &&& r is Ok ==> 0 <= np < s.len() && r->Ok_0.0@ == s[np].0 && r->Ok_0.1@ == s[np].1
                && rw_cursor_pos(*final(c)) == np
            &&& 0 <= np < s.len() ==> r != Err::<(Vec<u8>, Vec<u8>), i32>(ENGINE_NOT_FOUND)
        }),
{
    match lmdb::Cursor::get(&*c, None, None, 12) {
        Ok((Some(k), v)) => Ok((k.to_vec(), v.to_vec())),
        // The engine returns the entry's key for this operation; a success
        // without one is treated as the engine's invalid-argument failure.
        Ok((None, _)) => Err(ENGINE_INVALID_ARG),
        Err(e) => Err(e.to_err_code()),
    }
}

/// Relies on `lmdb::Cursor::get` with the `MDB_SET_KEY` operation (code 16)
/// on a read-write cursor; as for the read-only cursor.
#[verifier::external_body]
pub(crate) fn rw_cursor_seek(c: &mut lmdb::RwCursor, key: &[u8]) -> (r: Result<
    (Vec<u8>, Vec<u8>),
    i32,
>)
    ensures
        rw_cursor_entries(*final(c)) == rw_cursor_entries(*old(c)),
        rw_cursor_default_db(*final(c)) == rw_cursor_default_db(*old(c)),
        ({
            let s = rw_cursor_entries(*old(c));
            let i = index_of_key(s, key@);
            &&& r is Ok ==> 0 <= i && r->Ok_0.0@ == s[i].0 && r->Ok_0.1@ == s[i].1
                && rw_cursor_pos(*final(c)) == i
            &&& 0 <= i ==> r != Err::<(Vec<u8>, Vec<u8>), i32>(ENGINE_NOT_FOUND)
        }),
{
    match lmdb::Cursor::get(&*c, Some(key), None, 16) {
        Ok((Some(k), v)) => Ok((k.to_vec(), v.to_vec())),
        // On success the matched entry's key is the sought key.
        Ok((None, v)) => Ok((key.to_vec(), v.to_vec())),
        Err(e) => Err(e.to_err_code()),
    }
}

/// Relies on `lmdb::Cursor::get` with the `MDB_GET_CURRENT` operation (code
/// 4) on a read-write cursor; as for the read-only cursor.
#[verifier::external_body]
pub(crate) fn rw_cursor_current(c: &lmdb::RwCursor) -> (r: Result<(Vec<u8>, Vec<u8>), i32>)
    ensures
        ({
            let s = rw_cursor_entries(*c);
            let p = rw_cursor_pos(*c);
            if 0 <= p < s.len() {
                r is Ok && r->Ok_0.0@ == s[p].0 && r->Ok_0.1@ == s[p].1
            } else {
                r is Err
            }
        }),
{
    match lmdb::Cursor::get(c, None, None, 4) {
        Ok((Some(k), v)) => Ok((k.to_vec(), v.to_vec())),
        // The engine returns the entry's key for this operation; a success
        // without one is treated as the engine's invalid-argument failure.
        Ok((None, _)) => Err(ENGINE_INVALID_ARG),
        Err(e) => Err(e.to_err_code()),
    }
}

/// Relies on `lmdb::RwCursor::put` with empty write flags: on a
/// default-flag database a success enters the key/data pair, replacing any
/// existing entry for the key, and leaves the cursor positioned at the new
/// entry; on failure the entries are as they were.
#[verifier::external_body]
pub(crate) fn rw_cursor_put(c: &mut lmdb::RwCursor, key: &[u8], val: &[u8]) -> (r: Result<(), i32>)
    ensures
        rw_cursor_default_db(*final(c)) == rw_cursor_default_db(*old(c)),
        r is Ok && rw_cursor_default_db(*old(c)) ==> ({
            let s2 = entry_insert(rw_cursor_entries(*old(c)), key@, val@);
            rw_cursor_entries(*final(c)) == s2 && rw_cursor_pos(*final(c)) == index_of_key(
                s2,
                key@,
            )
        }),
        r is Err ==> rw_cursor_entries(*final(c)) == rw_cursor_entries(*old(c)),
{
    match c.put(&key, &val, lmdb::WriteFlags::empty()) {
        Ok(()) => Ok(()),
        Err(e) => Err(e.to_err_code()),
    }
}

/// Relies on `lmdb::RwCursor::del` with empty write flags: a success
/// deletes the entry at the cursor's position, which was valid; on failure
/// (an unpositioned cursor among the causes) the entries are as they were.
#[verifier::external_body]
pub(crate) fn rw_cursor_del(c: &mut lmdb::RwCursor) -> (r: Result<(), i32>)
    ensures
        rw_cursor_default_db(*final(c)) == rw_cursor_default_db(*old(c)),
        ({
            let s = rw_cursor_entries(*old(c));
            let p = rw_cursor_pos(*old(c));
            &&& r is Ok ==> 0 <= p < s.len() && rw_cursor_entries(*final(c)) == s.remove(p)
            &&& r is Err ==> rw_cursor_entries(*final(c)) == s
        }),
{
    match c.del(lmdb::WriteFlags::empty()) {
        Ok(()) => Ok(()),
        Err(e) => Err(e.to_err_code()),
    }
}

/// Relies on `lmdb::Transaction::abort` on a read-only transaction: it
/// releases the read snapshot.
#[verifier::external_body]
pub(crate) fn ro_txn_abort(t: lmdb::RoTransaction) {
    t.abort()
}

/// Relies on `lmdb::Transaction::abort` on a read-write transaction: it
/// discards all pending operations.
#[verifier::external_body]
pub(crate) fn rw_txn_abort(t: lmdb::RwTransaction) {
    t.abort()
}

} // verus!
