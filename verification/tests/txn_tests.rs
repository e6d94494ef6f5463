use kv::error::Error;
use kv::store::Bucket;
use kv::txn::Txn;

fn open_env(dir: &std::path::Path) -> lmdb::Environment {
    let mut builder = lmdb::Environment::new();
    builder.set_max_dbs(4);
    builder.open(dir).unwrap()
}

fn default_bucket(env: &lmdb::Environment) -> Bucket {
    Bucket::new(env.open_db(None).unwrap())
}

fn b(s: &str) -> Vec<u8> {
    s.as_bytes().to_vec()
}

#[test]
fn fresh_get_not_found() {
    let dir = tempfile::tempdir().unwrap();
    let env = open_env(dir.path());
    let bucket = default_bucket(&env);
    let txn = Txn::read_only(env.begin_ro_txn().unwrap());
    let r: Result<Vec<u8>, Error> = txn.get(&bucket, b("missing"));
    assert_eq!(r, Err(Error::NotFound));
    txn.abort();
}

#[test]
fn set_then_get_same_txn() {
    let dir = tempfile::tempdir().unwrap();
    let env = open_env(dir.path());
    let bucket = default_bucket(&env);
    let mut txn = Txn::read_write(env.begin_rw_txn().unwrap());
    txn.set(&bucket, b("k"), b("v")).unwrap();
    let got: Vec<u8> = txn.get(&bucket, b("k")).unwrap();
    assert_eq!(got, b("v"));
    txn.abort();
}

#[test]
fn set_overwrites() {
    let dir = tempfile::tempdir().unwrap();
    let env = open_env(dir.path());
    let bucket = default_bucket(&env);
    let mut txn = Txn::read_write(env.begin_rw_txn().unwrap());
    txn.set(&bucket, b("k"), b("one")).unwrap();
    txn.set(&bucket, b("k"), b("two")).unwrap();
    let got: Vec<u8> = txn.get(&bucket, b("k")).unwrap();
    assert_eq!(got, b("two"));
    txn.abort();
}

#[test]
fn read_only_rejects_mutation() {
    let dir = tempfile::tempdir().unwrap();
    let env = open_env(dir.path());
    let bucket = default_bucket(&env);
    let mut txn = Txn::read_only(env.begin_ro_txn().unwrap());
    assert_eq!(txn.set(&bucket, b("k"), b("v")), Err(Error::ReadOnly));
    assert_eq!(txn.del(&bucket, b("k")), Err(Error::ReadOnly));
    match txn.write_cursor(&bucket) {
        Err(e) => assert_eq!(e, Error::ReadOnly),
        Ok(_) => panic!("write cursor on a read-only transaction"),
    }
    // No mutation was performed: the key is still absent.
    let r: Result<Vec<u8>, Error> = txn.get(&bucket, b("k"));
    assert_eq!(r, Err(Error::NotFound));
    txn.abort();
}

#[test]
fn commit_visibility_and_snapshot_isolation() {
    let dir = tempfile::tempdir().unwrap();
    let env = open_env(dir.path());
    let bucket = default_bucket(&env);

    // A reader that begins before the commit must never see the write.
    let early = Txn::read_only(env.begin_ro_txn().unwrap());

    let mut writer = Txn::read_write(env.begin_rw_txn().unwrap());
    writer.set(&bucket, b("k"), b("v")).unwrap();
    writer.commit().unwrap();

    let r: Result<Vec<u8>, Error> = early.get(&bucket, b("k"));
    assert_eq!(r, Err(Error::NotFound));
    early.abort();

    // A reader that begins strictly after the commit sees the write.
    let late = Txn::read_only(env.begin_ro_txn().unwrap());
    let got: Vec<u8> = late.get(&bucket, b("k")).unwrap();
    assert_eq!(got, b("v"));
    late.abort();
}

#[test]
fn abort_discards_writes() {
    let dir = tempfile::tempdir().unwrap();
    let env = open_env(dir.path());
    let bucket = default_bucket(&env);

    let mut seed = Txn::read_write(env.begin_rw_txn().unwrap());
    seed.set(&bucket, b("kept"), b("old")).unwrap();
    seed.commit().unwrap();

    let mut txn = Txn::read_write(env.begin_rw_txn().unwrap());
    txn.set(&bucket, b("kept"), b("new")).unwrap();
    txn.set(&bucket, b("added"), b("x")).unwrap();
    txn.del(&bucket, b("kept")).unwrap();
    txn.abort();

    let after = Txn::read_only(env.begin_ro_txn().unwrap());
    let kept: Vec<u8> = after.get(&bucket, b("kept")).unwrap();
    assert_eq!(kept, b("old"));
    let added: Result<Vec<u8>, Error> = after.get(&bucket, b("added"));
    assert_eq!(added, Err(Error::NotFound));
    after.abort();
}

#[test]
fn cursor_ascending_iteration() {
    let dir = tempfile::tempdir().unwrap();
    let env = open_env(dir.path());
    let bucket = default_bucket(&env);
    let mut txn = Txn::read_write(env.begin_rw_txn().unwrap());
    // Inserted out of order on purpose.
    txn.set(&bucket, b("b"), b("2")).unwrap();
    txn.set(&bucket, b("c"), b("3")).unwrap();
    txn.set(&bucket, b("a"), b("1")).unwrap();
    txn.commit().unwrap();

    let txn = Txn::read_only(env.begin_ro_txn().unwrap());
    let mut cur = txn.read_cursor(&bucket).unwrap();
    assert_eq!(cur.next().unwrap(), (b("a"), b("1")));
    assert_eq!(cur.next().unwrap(), (b("b"), b("2")));
    assert_eq!(cur.next().unwrap(), (b("c"), b("3")));
    assert_eq!(cur.next(), Err(Error::NotFound));
    drop(cur);
    txn.abort();
}

#[test]
fn cursor_reverse_iteration() {
    let dir = tempfile::tempdir().unwrap();
    let env = open_env(dir.path());
    let bucket = default_bucket(&env);
    let mut txn = Txn::read_write(env.begin_rw_txn().unwrap());
    txn.set(&bucket, b("c"), b("3")).unwrap();
    txn.set(&bucket, b("a"), b("1")).unwrap();
    txn.set(&bucket, b("b"), b("2")).unwrap();
    txn.commit().unwrap();

    let txn = Txn::read_only(env.begin_ro_txn().unwrap());
    let mut cur = txn.read_cursor(&bucket).unwrap();
    assert_eq!(cur.prev().unwrap(), (b("c"), b("3")));
    assert_eq!(cur.prev().unwrap(), (b("b"), b("2")));
    assert_eq!(cur.prev().unwrap(), (b("a"), b("1")));
    assert_eq!(cur.prev(), Err(Error::NotFound));
    drop(cur);
    txn.abort();
}

#[test]
fn cursor_seek_and_current() {
    let dir = tempfile::tempdir().unwrap();
    let env = open_env(dir.path());
    let bucket = default_bucket(&env);
    let mut txn = Txn::read_write(env.begin_rw_txn().unwrap());
    txn.set(&bucket, b("a"), b("1")).unwrap();
    txn.set(&bucket, b("b"), b("2")).unwrap();
    txn.commit().unwrap();

    let txn = Txn::read_only(env.begin_ro_txn().unwrap());
    let mut cur = txn.read_cursor(&bucket).unwrap();
    assert_eq!(cur.current(), Err(Error::IoFailure(22)));
    assert_eq!(cur.seek(b("b")).unwrap(), (b("b"), b("2")));
    assert_eq!(cur.current().unwrap(), (b("b"), b("2")));
    assert_eq!(cur.seek(b("zzz")), Err(Error::NotFound));
    drop(cur);
    txn.abort();
}

#[test]
fn write_cursor_delete_at_position() {
    let dir = tempfile::tempdir().unwrap();
    let env = open_env(dir.path());
    let bucket = default_bucket(&env);
    let mut txn = Txn::read_write(env.begin_rw_txn().unwrap());
    txn.set(&bucket, b("a"), b("1")).unwrap();
    txn.set(&bucket, b("b"), b("2")).unwrap();
    txn.set(&bucket, b("c"), b("3")).unwrap();

    let mut cur = txn.write_cursor(&bucket).unwrap();
    assert_eq!(cur.seek(b("b")).unwrap(), (b("b"), b("2")));
    cur.del().unwrap();
    drop(cur);

    // Exactly that entry is gone.
    let r: Result<Vec<u8>, Error> = txn.get(&bucket, b("b"));
    assert_eq!(r, Err(Error::NotFound));
    let a: Vec<u8> = txn.get(&bucket, b("a")).unwrap();
    assert_eq!(a, b("1"));
    let c: Vec<u8> = txn.get(&bucket, b("c")).unwrap();
    assert_eq!(c, b("3"));
    txn.abort();
}

#[test]
fn write_cursor_put_in_order() {
    let dir = tempfile::tempdir().unwrap();
    let env = open_env(dir.path());
    let bucket = default_bucket(&env);
    let mut txn = Txn::read_write(env.begin_rw_txn().unwrap());
    txn.set(&bucket, b("a"), b("1")).unwrap();
    txn.set(&bucket, b("c"), b("3")).unwrap();

    let mut cur = txn.write_cursor(&bucket).unwrap();
    cur.put(b("b"), b("2")).unwrap();
    assert_eq!(cur.current().unwrap(), (b("b"), b("2")));
    // The new entry stands at its place in key order.
    assert_eq!(cur.next().unwrap(), (b("c"), b("3")));
    assert_eq!(cur.prev().unwrap(), (b("b"), b("2")));
    assert_eq!(cur.prev().unwrap(), (b("a"), b("1")));
    drop(cur);
    txn.abort();
}

#[test]
fn users_scenario() {
    let dir = tempfile::tempdir().unwrap();
    let env = open_env(dir.path());
    let users = Bucket::new(
        env.create_db(Some("users"), lmdb::DatabaseFlags::empty()).unwrap(),
    );

    let mut txn = Txn::read_write(env.begin_rw_txn().unwrap());
    txn.set(&users, b("1"), b("alice")).unwrap();
    txn.commit().unwrap();

    let reader = Txn::read_only(env.begin_ro_txn().unwrap());
    let got: Vec<u8> = reader.get(&users, b("1")).unwrap();
    assert_eq!(got, b("alice"));
    reader.abort();

    let mut txn = Txn::read_write(env.begin_rw_txn().unwrap());
    txn.del(&users, b("1")).unwrap();
    txn.commit().unwrap();

    let reader = Txn::read_only(env.begin_ro_txn().unwrap());
    let r: Result<Vec<u8>, Error> = reader.get(&users, b("1"));
    assert_eq!(r, Err(Error::NotFound));
    reader.abort();
}

#[test]
fn del_missing_key_not_found() {
    let dir = tempfile::tempdir().unwrap();
    let env = open_env(dir.path());
    let bucket = default_bucket(&env);
    let mut txn = Txn::read_write(env.begin_rw_txn().unwrap());
    assert_eq!(txn.del(&bucket, b("missing")), Err(Error::NotFound));
    txn.abort();
}

#[test]
fn str_keys_name_the_same_entries() {
    let dir = tempfile::tempdir().unwrap();
    let env = open_env(dir.path());
    let bucket = default_bucket(&env);
    let mut txn = Txn::read_write(env.begin_rw_txn().unwrap());
    txn.set(&bucket, "name", b("alice")).unwrap();
    let by_str: Vec<u8> = txn.get(&bucket, "name").unwrap();
    assert_eq!(by_str, b("alice"));
    let by_bytes: Vec<u8> = txn.get(&bucket, b("name")).unwrap();
    assert_eq!(by_bytes, b("alice"));
    txn.abort();
}

#[test]
fn checked_bucket_accepts_default_database() {
    let dir = tempfile::tempdir().unwrap();
    let env = open_env(dir.path());
    let db = env.open_db(None).unwrap();
    let txn = Txn::read_only(env.begin_ro_txn().unwrap());
    let bucket = Bucket::checked(&txn, db).unwrap();
    let r: Result<Vec<u8>, Error> = txn.get(&bucket, b("missing"));
    assert_eq!(r, Err(Error::NotFound));
    txn.abort();
}

#[test]
fn checked_bucket_rejects_duplicate_key_database() {
    let dir = tempfile::tempdir().unwrap();
    let env = open_env(dir.path());
    let db = env.create_db(Some("dups"), lmdb::DatabaseFlags::DUP_SORT).unwrap();
    let txn = Txn::read_only(env.begin_ro_txn().unwrap());
    match Bucket::checked(&txn, db) {
        Err(e) => assert_eq!(e, Error::InvalidInput),
        Ok(_) => panic!("a duplicate-key database is not a default one"),
    }
    txn.abort();
}

#[test]
fn bucket_identity() {
    let dir = tempfile::tempdir().unwrap();
    let env = open_env(dir.path());
    let one = Bucket::new(env.create_db(Some("one"), lmdb::DatabaseFlags::empty()).unwrap());
    let two = Bucket::new(env.create_db(Some("two"), lmdb::DatabaseFlags::empty()).unwrap());
    assert_ne!(one.dbi(), two.dbi());

    // The same key in different buckets names different entries.
    let mut txn = Txn::read_write(env.begin_rw_txn().unwrap());
    txn.set(&one, b("k"), b("in-one")).unwrap();
    let r: Result<Vec<u8>, Error> = txn.get(&two, b("k"));
    assert_eq!(r, Err(Error::NotFound));
    let got: Vec<u8> = txn.get(&one, b("k")).unwrap();
    assert_eq!(got, b("in-one"));
    txn.abort();
}
