use kv::{KvError, Kvpair, MemTable, Storage, Value};

#[test]
fn memtable_basic_interface_should_work() {
    let store = MemTable::new();
    test_basic_interface(store);
}

#[test]
fn memtable_get_all_should_work() {
    let store = MemTable::new();
    test_get_all(store);
}

fn test_basic_interface(mut store: impl Storage) {
    // the first set creates the table, inserts the key and returns None
    let v = store.set("t1", "hello".into(), "world".into());
    assert!(v.unwrap().is_none());
    // setting the same key again updates it and returns the previous value
    let v1: Result<Option<Value>, KvError> = store.set("t1", "hello".into(), "world1".into());
    assert_eq!(v1, Ok(Some("world".into())));
    // get of an existing key gives the latest value
    let v = store.get("t1", "hello".into());
    assert_eq!(v, Ok(Some("world1".into())));
    // get of a missing key gives None
    assert_eq!(Ok(None), store.get("t1", "hello world"));
    assert!(store.get("t2", "hello111").unwrap().is_none());
    // contains is true for a present key and false otherwise
    assert_eq!(store.contains("t1", "hello"), Ok(true));
    assert_eq!(store.contains("t1", "hello1"), Ok(false));
    assert_eq!(store.contains("t2", "hello"), Ok(false));
    let v = store.del("t1", "hello");
    assert_eq!(v, Ok(Some("world1".into())));
    // del of a missing key
    assert_eq!(Ok(None), store.del("t1", "hello1"));
    assert_eq!(Ok(None), store.del("t2", "hello"));
    test_hdel(store);
}

fn test_get_all(mut store: impl Storage) {
    store.set("t2", "k1".into(), "v1".into()).unwrap();
    store.set("t2", "k2".into(), "v2".into()).unwrap();
    let mut data = store.get_all("t2").unwrap();
    data.sort_by(|a, b| a.partial_cmp(b).unwrap());
    assert_eq!(
        data,
        vec![
            Kvpair::new("k1", "v1".into()),
            Kvpair::new("k2", "v2".into())
        ]
    )
}

fn test_hdel(mut store: impl Storage) {
    store.set("texits", "t1".into(), "hello".into()).unwrap();
    store.set("texits", "t2".into(), "hello".into()).unwrap();
    if let Err(e) = store.del("texits", "t1") {
        panic!("del error :{:?}", e);
    }
    assert_eq!(store.contains("texits", "t1"), Ok(false));
}
