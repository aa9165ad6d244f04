use kv::{Kvpair, MemTable, Storage, Value};

#[test]
fn get_after_set_gives_value_written() {
    let mut store = MemTable::new();
    store.set("t", "k".into(), 7.into()).unwrap();
    assert_eq!(store.get("t", "k"), Ok(Some(Value::from(7))));
    store.set("t", "k".into(), true.into()).unwrap();
    assert_eq!(store.get("t", "k"), Ok(Some(Value::from(true))));
}

#[test]
fn set_keeps_other_slots() {
    let mut store = MemTable::new();
    store.set("a", "k".into(), "one".into()).unwrap();
    store.set("b", "k".into(), "two".into()).unwrap();
    store.set("a", "j".into(), "three".into()).unwrap();
    assert_eq!(store.get("a", "k"), Ok(Some("one".into())));
    assert_eq!(store.get("b", "k"), Ok(Some("two".into())));
    assert_eq!(store.get("a", "j"), Ok(Some("three".into())));
    assert_eq!(store.get("b", "j"), Ok(None));
}

#[test]
fn del_undoes_set() {
    let mut store = MemTable::new();
    store.set("t", "keep".into(), 1.into()).unwrap();
    assert_eq!(store.set("t", "new".into(), 2.into()), Ok(None));
    assert_eq!(store.del("t", "new"), Ok(Some(Value::from(2))));
    assert_eq!(store.get("t", "new"), Ok(None));
    assert_eq!(store.contains("t", "new"), Ok(false));
    assert_eq!(store.get_all("t"), Ok(vec![Kvpair::new("keep", 1.into())]));
}

#[test]
fn contains_matches_get() {
    let mut store = MemTable::new();
    store.set("t", "k".into(), Value::default()).unwrap();
    assert_eq!(store.contains("t", "k"), Ok(true));
    assert_eq!(store.get("t", "k"), Ok(Some(Value::default())));
    assert_eq!(store.contains("t", "x"), Ok(false));
    assert_eq!(store.get("t", "x"), Ok(None));
}

#[test]
fn get_all_lists_only_its_table() {
    let mut store = MemTable::new();
    assert_eq!(store.get_all("empty"), Ok(vec![]));
    store.set("t", "b".into(), 2.into()).unwrap();
    store.set("u", "a".into(), 9.into()).unwrap();
    store.set("t", "a".into(), 1.into()).unwrap();
    store.set("t", "b".into(), 3.into()).unwrap();
    let mut all = store.get_all("t").unwrap();
    all.sort_by(|x, y| x.partial_cmp(y).unwrap());
    assert_eq!(all, vec![Kvpair::new("a", 1.into()), Kvpair::new("b", 3.into())]);
}

#[test]
fn get_iter_yields_the_same_pairs_as_get_all() {
    let mut store = MemTable::new();
    store.set("t", "x".into(), "1".into()).unwrap();
    store.set("t", "y".into(), "2".into()).unwrap();
    store.set("s", "z".into(), "3".into()).unwrap();
    let mut from_iter: Vec<Kvpair> = store.get_iter("t").unwrap().collect();
    let mut from_all = store.get_all("t").unwrap();
    from_iter.sort_by(|x, y| x.partial_cmp(y).unwrap());
    from_all.sort_by(|x, y| x.partial_cmp(y).unwrap());
    assert_eq!(from_iter, from_all);
    assert_eq!(from_iter.len(), 2);
}

#[test]
fn value_conversions() {
    assert_eq!(Value::from("s"), Value::from(String::from("s")));
    assert_eq!(
        Value::from(5).value,
        Some(kv::value::Value::Integer(5))
    );
    assert_eq!(Value::from(false).value, Some(kv::value::Value::Bool(false)));
    assert_eq!(Value::default().value, None);
    let pair = Kvpair::new("k", 3.into());
    assert_eq!(pair.key, "k");
    assert_eq!(pair.value, Some(Value::from(3)));
}
