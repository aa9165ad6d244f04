use kv::command_request::RequestData;
use kv::{CommandRequest, CommandResponse, CommandService, Kvpair, MemTable, Storage, Value};

#[test]
fn hset_should_work() {
    let mut store = MemTable::new();
    let cmd = CommandRequest::new_hset("t1", "hello", "word".into());
    let res = dispatch(cmd.clone(), &mut store);
    assert_res_ok(res, &[Value::default()], &[]);
    let res = dispatch(cmd, &mut store);
    assert_res_ok(res, &["word".into()], &[]);
}

#[test]
fn hget_should_work() {
    let mut store = MemTable::new();

    let cmd = CommandRequest::new_hset("t1", "hello", "i am your father ".into());
    dispatch(cmd, &mut store);

    let cmd = CommandRequest::new_hget("t1", "hello");
    let res = dispatch(cmd, &mut store);
    assert_res_ok(res, &["i am your father ".into()], &[]);
}

fn dispatch(cmd: CommandRequest, storage: &mut impl Storage) -> CommandResponse {
    match cmd.request_data.unwrap() {
        RequestData::Hget(v) => v.execute(storage),
        RequestData::Hgetall(v) => v.execute(storage),
        RequestData::Hset(v) => v.execute(storage),
        _ => unreachable!(),
    }
}

#[test]
fn hget_with_non_exist_key_should_return_404() {
    let mut store = MemTable::new();
    let cmd = CommandRequest::new_hget("score", "u1");
    let res = dispatch(cmd, &mut store);
    assert_res_error(res, 404, "Not Found");
}

#[test]
fn hget_all_should_work() {
    let mut store = MemTable::new();
    let cmds = vec![
        CommandRequest::new_hset("socre", "u1", 10.into()),
        CommandRequest::new_hset("score", "u2", 8.into()),
        CommandRequest::new_hset("score", "u3", 9.into()),
        CommandRequest::new_hset("score", "u1", 11.into()),
    ];
    for cmd in cmds {
        dispatch(cmd, &mut store);
    }
    let cmd = CommandRequest::new_hgetall("score");
    let res = dispatch(cmd, &mut store);
    let pairs = &[
        Kvpair::new("u1", 11.into()),
        Kvpair::new("u2", 8.into()),
        Kvpair::new("u3", 9.into()),
    ];
    assert_res_ok(res, &[], pairs)
}

fn assert_res_ok(mut res: CommandResponse, values: &[Value], pair: &[Kvpair]) {
    res.pairs.sort_by(|a, b| a.partial_cmp(b).unwrap());
    assert_eq!(res.status, 200);
    assert_eq!(res.message, "");
    assert_eq!(res.values, values);
    assert_eq!(res.pairs, pair);
}

fn assert_res_error(res: CommandResponse, code: u32, msg: &str) {
    assert_eq!(res.status, code);
    assert!(res.message.contains(msg));
    assert_eq!(res.values, &[]);
    assert_eq!(res.pairs, &[]);
}
