//! Constructors and conversions for the protocol messages.

pub mod abi;

use vstd::prelude::*;

use abi::command_request::RequestData;
use abi::value::ValueData;
use abi::{
    CommandRequest, CommandResponse, Hdel, Hexist, Hget, Hgetall, Hset, Kvpair, PairData,
    ReplyData, Value,
};
use hyper::StatusCode;

use crate::error::{ErrorData, KvError};

verus! {

/// The HTTP statuses that responses carry.
#[derive(Clone, Copy, Debug, PartialEq, Eq)]
pub enum Status {
    Success,
    BadRequest,
    NotFound,
    InternalServerError,
}

impl Status {
    /// The numeric code of the status, as RFC 9110 assigns it.
    pub open spec fn code(self) -> u16 {
        match self {
            Status::Success => 200,
            Status::BadRequest => 400,
            Status::NotFound => 404,
            Status::InternalServerError => 500,
        }
    }
}

/// Calls `hyper::StatusCode::as_u16` on the `StatusCode` constant that `s`
/// names (`OK`, `BAD_REQUEST`, `NOT_FOUND`, `INTERNAL_SERVER_ERROR`); the
/// contract claims that it returns that constant's number (200, 400, 404, 500).
#[verifier::external_body]
fn status_code(s: Status) -> (r: u16)
    ensures
        r == s.code(),
{
    let code = match s {
        Status::Success => StatusCode::OK,
        Status::BadRequest => StatusCode::BAD_REQUEST,
        Status::NotFound => StatusCode::NOT_FOUND,
        Status::InternalServerError => StatusCode::INTERNAL_SERVER_ERROR,
    };
    code.as_u16()
}

impl ErrorData {
    /// The status with which an error is answered.
    pub open spec fn status(self) -> Status {
        match self {
            ErrorData::NotFound(_, _) => Status::NotFound,
            ErrorData::InvalidCommand(_) => Status::BadRequest,
            ErrorData::Internal(_) => Status::InternalServerError,
        }
    }
}

/// The reply that carries one value.
pub open spec fn value_reply(v: Option<ValueData>) -> ReplyData {
    ReplyData {
        status: Status::Success.code() as u32,
        message: Seq::empty(),
        values: seq![v],
        pairs: Seq::empty(),
    }
}

/// The reply that carries a list of pairs.
pub open spec fn pairs_reply(pairs: Seq<PairData>) -> ReplyData {
    ReplyData {
        status: Status::Success.code() as u32,
        message: Seq::empty(),
        values: Seq::empty(),
        pairs,
    }
}

/// The reply that reports an error.
pub open spec fn error_reply(e: ErrorData) -> ReplyData {
    ReplyData {
        status: e.status().code() as u32,
        message: e.message(),
        values: Seq::empty(),
        pairs: Seq::empty(),
    }
}

impl CommandRequest {
    /// An `HGET` request for `key` in `table`.
    pub fn new_hget(table: &str, key: &str) -> (r: Self)
        ensures
            r.request_data matches Some(RequestData::Hget(h)) && h.table@ == table@ && h.key@
                == key@,
    {
        CommandRequest {
            request_data: Some(
                RequestData::Hget(Hget { table: table.to_owned(), key: key.to_owned() }),
            ),
        }
    }

    /// An `HGETALL` request for `table`.
    pub fn new_hgetall(table: &str) -> (r: Self)
        ensures
            r.request_data matches Some(RequestData::Hgetall(h)) && h.table@ == table@,
    {
        CommandRequest {
            request_data: Some(RequestData::Hgetall(Hgetall { table: table.to_owned() })),
        }
    }

    /// An `HSET` request that stores `value` under `key` in `table`.
    pub fn new_hset(table: &str, key: &str, value: Value) -> (r: Self)
        ensures
            r.request_data matches Some(RequestData::Hset(h)) && h.table@ == table@ && (
            h.pair matches Some(p) && p.key@ == key@ && p.value == Some(value)),
    {
        CommandRequest {
            request_data: Some(
                RequestData::Hset(
                    Hset { table: table.to_owned(), pair: Some(Kvpair::new(key, value)) },
                ),
            ),
        }
    }

    /// An `HEXIST` request for `key` in `table`.
    pub fn new_hexist(table: &str, key: &str) -> (r: Self)
        ensures
            r.request_data matches Some(RequestData::Hexist(h)) && h.table@ == table@ && h.key@
                == key@,
    {
        CommandRequest {
            request_data: Some(
                RequestData::Hexist(Hexist { table: table.to_owned(), key: key.to_owned() }),
            ),
        }
    }

    /// An `HDEL` request for `keys` in `table`.
    pub fn new_hdel(table: &str, keys: Vec<String>) -> (r: Self)
        ensures
            r.request_data matches Some(RequestData::Hdel(h)) && h.table@ == table@ && h.keys
                == keys,
    {
        CommandRequest {
            request_data: Some(RequestData::Hdel(Hdel { table: table.to_owned(), keys })),
        }
    }
}

impl Kvpair {
    /// The pair of `key` and `val`.
    pub fn new(key: &str, val: Value) -> (r: Self)
        ensures
            r.key@ == key@,
            r.value == Some(val),
    {
        Kvpair { key: key.to_owned(), value: Some(val) }
    }
}

impl From<String> for Value {
    fn from(s: String) -> (r: Self) {
        Value { value: Some(abi::value::Value::String(s)) }
    }
}

impl vstd::std_specs::convert::FromSpecImpl<String> for Value {
    open spec fn obeys_from_spec() -> bool {
        true
    }

    open spec fn from_spec(v: String) -> Self {
        Value { value: Some(abi::value::Value::String(v)) }
    }
}

impl From<&str> for Value {
    /// A string value with the text of `s`; this contract, not `from_spec`,
    /// says so, since a `String` with given text cannot be written in a spec.
    fn from(s: &str) -> (r: Self)
        ensures
            r@ == Some(ValueData::Str(s@)),
    {
        Value { value: Some(abi::value::Value::String(s.to_owned())) }
    }
}

impl vstd::std_specs::convert::FromSpecImpl<&str> for Value {
    open spec fn obeys_from_spec() -> bool {
        false
    }

    open spec fn from_spec(v: &str) -> Self {
        choose|r: Value| r@ == Some(ValueData::Str(v@))
    }
}

impl From<i64> for Value {
    fn from(value: i64) -> (r: Self) {
        Value { value: Some(abi::value::Value::Integer(value)) }
    }
}

impl vstd::std_specs::convert::FromSpecImpl<i64> for Value {
    open spec fn obeys_from_spec() -> bool {
        true
    }

    open spec fn from_spec(v: i64) -> Self {
        Value { value: Some(abi::value::Value::Integer(v)) }
    }
}

impl From<bool> for Value {
    fn from(value: bool) -> (r: Self) {
        Value { value: Some(abi::value::Value::Bool(value)) }
    }
}

impl vstd::std_specs::convert::FromSpecImpl<bool> for Value {
    open spec fn obeys_from_spec() -> bool {
        true
    }

    open spec fn from_spec(v: bool) -> Self {
        Value { value: Some(abi::value::Value::Bool(v)) }
    }
}

impl From<Value> for CommandResponse {
    /// A success reply that carries `value`.
    fn from(value: Value) -> (r: Self)
        ensures
            r@ == value_reply(value@),
    {
        let status = status_code(Status::Success);
        let mut values: Vec<Value> = Vec::new();
        values.push(value);
        let r = CommandResponse {
            status: status as u32,
            message: String::new(),
            values,
            pairs: Vec::new(),
        };
        assert(r@.values =~= value_reply(value@).values);
        assert(r@.pairs =~= Seq::<PairData>::empty());
        r
    }
}

impl vstd::std_specs::convert::FromSpecImpl<Value> for CommandResponse {
    open spec fn obeys_from_spec() -> bool {
        false
    }

    open spec fn from_spec(v: Value) -> Self {
        choose|r: CommandResponse| r@ == value_reply(v@)
    }
}

impl From<Vec<Kvpair>> for CommandResponse {
    /// A success reply that carries the pairs, in their order.
    fn from(value: Vec<Kvpair>) -> (r: Self)
        ensures
            r@ == pairs_reply(value@.map_values(|p: Kvpair| p@)),
    {
        let status = status_code(Status::Success);
        let r = CommandResponse {
            status: status as u32,
            message: String::new(),
            values: Vec::new(),
            pairs: value,
        };
        assert(r@.values =~= Seq::<Option<ValueData>>::empty());
        r
    }
}

impl vstd::std_specs::convert::FromSpecImpl<Vec<Kvpair>> for CommandResponse {
    open spec fn obeys_from_spec() -> bool {
        false
    }

    open spec fn from_spec(v: Vec<Kvpair>) -> Self {
        choose|r: CommandResponse| r@ == pairs_reply(v@.map_values(|p: Kvpair| p@))
    }
}

impl From<KvError> for CommandResponse {
    /// The reply that reports `value`: `NotFound` is answered with 404,
    /// `InvalidCommand` with 400, any other error with 500; the message is
    /// the error's text.
    fn from(value: KvError) -> (r: Self)
        ensures
            r@ == error_reply(value@),
    {
        let internal = status_code(Status::InternalServerError);
        let mut result = CommandResponse {
            status: internal as u32,
            message: value.message(),
            values: Vec::new(),
            pairs: Vec::new(),
        };
        match value {
            KvError::NotFound(_, _) => {
                let code = status_code(Status::NotFound);
                result.status = code as u32;
            },
            KvError::InvalidCommand(_) => {
                let code = status_code(Status::BadRequest);
                result.status = code as u32;
            },
            _ => {},
        }
        assert(result@.values =~= Seq::<Option<ValueData>>::empty());
        assert(result@.pairs =~= Seq::<PairData>::empty());
        result
    }
}

impl vstd::std_specs::convert::FromSpecImpl<KvError> for CommandResponse {
    open spec fn obeys_from_spec() -> bool {
        false
    }

    open spec fn from_spec(v: KvError) -> Self {
        choose|r: CommandResponse| r@ == error_reply(v@)
    }
}

} // verus!
