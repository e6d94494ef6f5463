//! The bucket handle: an opaque, copy-free reference to one named
//! sub-database of the environment. It owns no data; its identity is the
//! engine-level database identifier.

use vstd::prelude::*;

use crate::engine::{database_default_flags, database_id, dbi_of, ro_txn_db_flags, rw_txn_db_flags};
use crate::error::Error;
use crate::txn::Txn;

verus! {

/// A handle to one named sub-database ("bucket") of the environment.
pub struct Bucket {
    db: lmdb::Database,
}

impl Bucket {
    /// The identifier of the sub-database this handle names.
    pub closed spec fn id(self) -> int {
        database_id(self.db)
    }

    /// The sub-database was opened with default flags: unique keys in
    /// ascending byte order. The ordered-walk and insert-replace contracts
    /// of transactions and cursors hold of such buckets; `checked`
    /// establishes this.
    pub closed spec fn is_default(self) -> bool {
        database_default_flags(self.db)
    }

    /// Wraps an engine database handle as it stands, without inspecting its
    /// configuration.
    pub fn new(db: lmdb::Database) -> (r: Bucket)
        ensures
            r.id() == database_id(db),
    {
        Bucket { db }
    }

    /// Wraps an engine database handle after confirming, through the given
    /// transaction, that the database was opened with default flags. Fails
    /// with `Error::InvalidInput` when the database is configured otherwise
    /// (duplicate keys, a reversed comparator), and passes an engine
    /// failure through unchanged.
    pub fn checked(txn: &Txn, db: lmdb::Database) -> (r: Result<Bucket, Error>)
        ensures
            r is Ok ==> r->Ok_0.id() == database_id(db) && r->Ok_0.is_default(),
            r is Err ==> r->Err_0 != Error::ReadOnly,
    {
        let flags = match txn {
            Txn::ReadOnly(t) => ro_txn_db_flags(t, &db),
            Txn::ReadWrite(t) => rw_txn_db_flags(t, &db),
        };
        match flags {
            Ok(f) => {
                if f == 0 {
                    Ok(Bucket { db })
                } else {
                    Err(Error::InvalidInput)
                }
            },
            Err(code) => Err(Error::from_engine_code(code)),
        }
    }

    /// The engine-level database handle.
    pub fn db(&self) -> (r: &lmdb::Database)
        ensures
            database_id(*r) == self.id(),
            database_default_flags(*r) == self.is_default(),
    {
        &self.db
    }

    /// The raw engine-level identifier of the sub-database.
    pub fn dbi(&self) -> (r: u32)
        ensures
            r as int == self.id(),
    {
        dbi_of(&self.db)
    }
}

} // verus!
