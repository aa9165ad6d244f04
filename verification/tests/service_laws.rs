use kv::command_request::RequestData;
use kv::{
    dispatch, CommandRequest, CommandResponse, Hdel, KvError, Kvpair, MemTable, Service, Storage,
    Value,
};

fn assert_value_reply(res: &CommandResponse, value: Value) {
    assert_eq!(res.status, 200);
    assert_eq!(res.message, "");
    assert_eq!(res.values, vec![value]);
    assert_eq!(res.pairs, vec![]);
}

fn assert_error_reply(res: &CommandResponse, status: u32, message: &str) {
    assert_eq!(res.status, status);
    assert_eq!(res.message, message);
    assert_eq!(res.values, vec![]);
    assert_eq!(res.pairs, vec![]);
}

#[test]
fn error_messages_and_statuses() {
    let nf = KvError::NotFound("t".to_string(), "k".to_string());
    assert_eq!(nf.message(), "Not Found for table: t, key: k");
    assert_error_reply(&nf.into(), 404, "Not Found for table: t, key: k");
    let bad = KvError::InvalidCommand("x".to_string());
    assert_eq!(bad.message(), "Cannot parse command: `x`");
    assert_error_reply(&bad.into(), 400, "Cannot parse command: `x`");
    let internal = KvError::Internal("boom".to_string());
    assert_eq!(internal.message(), "Internal error: boom");
    assert_error_reply(&internal.into(), 500, "Internal error: boom");
}

#[test]
fn success_replies_carry_status_200() {
    let res: CommandResponse = Value::from(1).into();
    assert_value_reply(&res, Value::from(1));
    let res: CommandResponse = vec![Kvpair::new("a", 2.into())].into();
    assert_eq!(res.status, 200);
    assert_eq!(res.message, "");
    assert_eq!(res.values, vec![]);
    assert_eq!(res.pairs, vec![Kvpair::new("a", 2.into())]);
}

#[test]
fn hget_reads_hset_through_dispatch() {
    let mut store = MemTable::new();
    let res = dispatch(CommandRequest::new_hset("t", "k", "v".into()), &mut store);
    assert_value_reply(&res, Value::default());
    let res = dispatch(CommandRequest::new_hget("t", "k"), &mut store);
    assert_value_reply(&res, "v".into());
    let res = dispatch(CommandRequest::new_hget("t", "k"), &mut store);
    assert_value_reply(&res, "v".into());
}

#[test]
fn hset_answers_previous_value() {
    let mut store = MemTable::new();
    let res = dispatch(CommandRequest::new_hset("t", "k", 1.into()), &mut store);
    assert_value_reply(&res, Value::default());
    let res = dispatch(CommandRequest::new_hset("t", "k", 2.into()), &mut store);
    assert_value_reply(&res, 1.into());
    assert_eq!(store.get("t", "k"), Ok(Some(2.into())));
}

#[test]
fn hset_without_pair_stores_nothing() {
    let mut store = MemTable::new();
    let cmd = CommandRequest {
        request_data: Some(RequestData::Hset(kv::Hset { table: "t".to_string(), pair: None })),
    };
    let res = dispatch(cmd, &mut store);
    assert_value_reply(&res, Value::default());
    assert_eq!(store.get_all("t"), Ok(vec![]));
}

#[test]
fn hset_pair_without_value_stores_empty_value() {
    let mut store = MemTable::new();
    let pair = Kvpair { key: "k".to_string(), value: None };
    let cmd = CommandRequest {
        request_data: Some(RequestData::Hset(kv::Hset { table: "t".to_string(), pair: Some(pair) })),
    };
    dispatch(cmd, &mut store);
    assert_eq!(store.get("t", "k"), Ok(Some(Value::default())));
}

#[test]
fn hget_of_missing_key_is_not_found() {
    let mut store = MemTable::new();
    let res = dispatch(CommandRequest::new_hget("score", "u1"), &mut store);
    assert_error_reply(&res, 404, "Not Found for table: score, key: u1");
}

#[test]
fn hexist_after_hset_and_after_hdel() {
    let mut store = MemTable::new();
    let res = dispatch(CommandRequest::new_hexist("t", "k"), &mut store);
    assert_value_reply(&res, false.into());
    dispatch(CommandRequest::new_hset("t", "k", 3.into()), &mut store);
    let res = dispatch(CommandRequest::new_hexist("t", "k"), &mut store);
    assert_value_reply(&res, true.into());
    let del = kv::CommandService::execute(
        Hdel { table: "t".to_string(), keys: vec!["k".to_string()] },
        &mut store,
    );
    assert_value_reply(&del, 3.into());
    let res = dispatch(CommandRequest::new_hexist("t", "k"), &mut store);
    assert_value_reply(&res, false.into());
}

#[test]
fn hdel_undoes_hset() {
    let mut store = MemTable::new();
    dispatch(CommandRequest::new_hset("t", "keep", 0.into()), &mut store);
    dispatch(CommandRequest::new_hset("t", "a", 1.into()), &mut store);
    dispatch(CommandRequest::new_hset("t", "b", 2.into()), &mut store);
    let res = kv::CommandService::execute(
        Hdel { table: "t".to_string(), keys: vec!["b".to_string(), "a".to_string()] },
        &mut store,
    );
    assert_value_reply(&res, 2.into());
    assert_eq!(store.get_all("t"), Ok(vec![Kvpair::new("keep", 0.into())]));
}

#[test]
fn hdel_removes_every_listed_key() {
    let mut store = MemTable::new();
    dispatch(CommandRequest::new_hset("t", "x", 1.into()), &mut store);
    dispatch(CommandRequest::new_hset("t", "y", 2.into()), &mut store);
    dispatch(CommandRequest::new_hset("u", "y", 3.into()), &mut store);
    let res = kv::CommandService::execute(
        Hdel {
            table: "t".to_string(),
            keys: vec!["missing".to_string(), "y".to_string(), "x".to_string()],
        },
        &mut store,
    );
    assert_error_reply(&res, 404, "Not Found for table: t, key: missing");
    assert_eq!(store.contains("t", "x"), Ok(false));
    assert_eq!(store.contains("t", "y"), Ok(false));
    assert_eq!(store.get("u", "y"), Ok(Some(3.into())));
}

#[test]
fn hdel_edge_cases() {
    let mut store = MemTable::new();
    let res = kv::CommandService::execute(Hdel { table: "t".to_string(), keys: vec![] }, &mut store);
    assert_error_reply(&res, 400, "Cannot parse command: `keys is empty`");
    let res = kv::CommandService::execute(
        Hdel { table: "t".to_string(), keys: vec!["gone".to_string()] },
        &mut store,
    );
    assert_error_reply(&res, 404, "Not Found for table: t, key: gone");
}

#[test]
fn dispatch_rejects_empty_and_unserved_requests() {
    let mut store = MemTable::new();
    let res = dispatch(CommandRequest { request_data: None }, &mut store);
    assert_error_reply(&res, 400, "Cannot parse command: `request has no data`");
    dispatch(CommandRequest::new_hset("t", "k", 1.into()), &mut store);
    let res = dispatch(CommandRequest::new_hgetall("t"), &mut store);
    assert_error_reply(&res, 500, "Internal error: not implemented");
    let res = dispatch(CommandRequest::new_hdel("t", vec!["k".to_string()]), &mut store);
    assert_error_reply(&res, 500, "Internal error: not implemented");
    assert_eq!(store.get("t", "k"), Ok(Some(1.into())));
}

#[test]
fn request_constructors_fill_their_fields() {
    match CommandRequest::new_hget("t", "k").request_data {
        Some(RequestData::Hget(h)) => {
            assert_eq!(h.table, "t");
            assert_eq!(h.key, "k");
        }
        _ => panic!("not an HGET"),
    }
    match CommandRequest::new_hdel("t", vec!["a".to_string()]).request_data {
        Some(RequestData::Hdel(h)) => {
            assert_eq!(h.table, "t");
            assert_eq!(h.keys, vec!["a".to_string()]);
        }
        _ => panic!("not an HDEL"),
    }
    match CommandRequest::new_hset("t", "k", 4.into()).request_data {
        Some(RequestData::Hset(h)) => {
            assert_eq!(h.table, "t");
            assert_eq!(h.pair, Some(Kvpair::new("k", 4.into())));
        }
        _ => panic!("not an HSET"),
    }
}

#[test]
fn service_executes_against_its_store() {
    let mut service = Service::new(MemTable::new());
    let res = service.execute(CommandRequest::new_hset("t", "k", "v".into()));
    assert_value_reply(&res, Value::default());
    let res = service.execute(CommandRequest::new_hget("t", "k"));
    assert_value_reply(&res, "v".into());
    let res = service.execute(CommandRequest::new_hexist("t", "nope"));
    assert_value_reply(&res, false.into());
}

#[test]
fn store_errors_are_reported_in_replies() {
    let err = || KvError::Internal("disk".to_string());
    let res = kv::answer_slot("t".to_string(), "k".to_string(), Err(err()));
    assert_error_reply(&res, 500, "Internal error: disk");
    let res = kv::answer_set(Err(KvError::InvalidCommand("bad".to_string())));
    assert_error_reply(&res, 400, "Cannot parse command: `bad`");
    let res = kv::answer_presence(Err(KvError::NotFound("a".to_string(), "b".to_string())));
    assert_error_reply(&res, 404, "Not Found for table: a, key: b");
    let res = kv::answer_listing(Err(err()));
    assert_error_reply(&res, 500, "Internal error: disk");
}

#[test]
fn store_answers_become_replies() {
    let res = kv::answer_slot("t".to_string(), "k".to_string(), Ok(Some(4.into())));
    assert_value_reply(&res, 4.into());
    let res = kv::answer_slot("t".to_string(), "k".to_string(), Ok(None));
    assert_error_reply(&res, 404, "Not Found for table: t, key: k");
    let res = kv::answer_set(Ok(None));
    assert_value_reply(&res, Value::default());
    let res = kv::answer_set(Ok(Some("old".into())));
    assert_value_reply(&res, "old".into());
    let res = kv::answer_presence(Ok(true));
    assert_value_reply(&res, true.into());
    let res = kv::answer_listing(Ok(vec![Kvpair::new("x", 1.into())]));
    assert_eq!(res.status, 200);
    assert_eq!(res.pairs, vec![Kvpair::new("x", 1.into())]);
}
