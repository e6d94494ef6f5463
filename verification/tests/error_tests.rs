use kv::error::Error;

#[test]
fn engine_code_translation() {
    assert_eq!(Error::from_engine_code(-30798), Error::NotFound);
    assert_eq!(Error::from_engine_code(-30799), Error::KeyExist);
    assert_eq!(Error::from_engine_code(-30781), Error::InvalidInput);
    assert_eq!(Error::from_engine_code(-30796), Error::Corrupted);
    assert_eq!(Error::from_engine_code(-30797), Error::Corrupted);
    assert_eq!(Error::from_engine_code(-30792), Error::MapFull);
    assert_eq!(Error::from_engine_code(5), Error::IoFailure(5));
    assert_eq!(Error::from_engine_code(13), Error::IoFailure(13));
    assert_eq!(Error::from_engine_code(-30795), Error::Other(-30795));
    assert_eq!(Error::from_engine_code(0), Error::Other(0));
}

#[test]
fn value_raw_roundtrip() {
    let v: Vec<u8> = vec![0, 1, 2, 255];
    let raw = kv::types::Value::raw_value(&v);
    assert_eq!(raw, v);
    let back: Vec<u8> = kv::types::Value::from_raw(raw).unwrap();
    assert_eq!(back, v);
}

#[test]
fn key_raw_bytes() {
    let k: Vec<u8> = vec![9, 8, 7];
    let raw = kv::types::Key::raw_key(&k);
    assert_eq!(raw, k);
}
