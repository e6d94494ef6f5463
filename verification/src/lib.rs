//! A typed transaction layer over an embedded, ordered key-value storage
//! engine (LMDB). The layer distinguishes read-only from read-write access,
//! offers typed get/set/delete and cursor operations over named buckets, and
//! translates engine failures into one structured error type.
//!
//! Reads hand values out as owned byte copies rather than as zero-copy views
//! borrowing the transaction: the small copy buys contracts over plain byte
//! sequences, and the borrow discipline on cursors stays intact.

pub mod cursor;
pub mod engine;
pub mod error;
pub mod order;
pub mod store;
pub mod txn;
pub mod types;
