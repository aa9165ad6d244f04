//! The messages that clients and the server exchange.

use vstd::prelude::*;

pub mod command_request;
pub mod value;

use value::ValueData;

verus! {

/// A value held by the store; `value: None` is the empty value.
#[derive(Debug, PartialEq, Eq, PartialOrd)]
pub struct Value {
    pub value: Option<value::Value>,
}

/// A key and the value stored under it.
#[derive(Debug, PartialEq, Eq, PartialOrd, Default)]
pub struct Kvpair {
    pub key: String,
    pub value: Option<Value>,
}

/// Read one key of a table.
#[derive(Clone, Debug, PartialEq, Default)]
pub struct Hget {
    pub table: String,
    pub key: String,
}

/// Read every pair of a table.
#[derive(Clone, Debug, PartialEq, Default)]
pub struct Hgetall {
    pub table: String,
}

/// Write one pair into a table.
#[derive(Clone, Debug, PartialEq, Default)]
pub struct Hset {
    pub table: String,
    pub pair: Option<Kvpair>,
}

/// Ask whether a table holds a key.
#[derive(Clone, Debug, PartialEq, Default)]
pub struct Hexist {
    pub table: String,
    pub key: String,
}

/// Remove keys from a table.
#[derive(Clone, Debug, PartialEq, Default)]
pub struct Hdel {
    pub table: String,
    pub keys: Vec<String>,
}

/// A request from a client.
#[derive(Clone, Debug, PartialEq, Default)]
pub struct CommandRequest {
    pub request_data: Option<command_request::RequestData>,
}

/// The answer to a request: an HTTP-style status, a message, and the
/// values or pairs that the command produced.
#[derive(Clone, Debug, PartialEq, Default)]
pub struct CommandResponse {
    pub status: u32,
    pub message: String,
    pub values: Vec<Value>,
    pub pairs: Vec<Kvpair>,
}

/// The model of a [`Kvpair`]: its key and its optional value.
pub struct PairData {
    pub key: Seq<char>,
    pub value: Option<Option<ValueData>>,
}

/// The model of a [`CommandResponse`].
#[verifier::ext_equal]
pub struct ReplyData {
    pub status: u32,
    pub message: Seq<char>,
    pub values: Seq<Option<ValueData>>,
    pub pairs: Seq<PairData>,
}

impl View for Value {
    type V = Option<ValueData>;

    open spec fn view(&self) -> Option<ValueData> {
        match self.value {
            Some(v) => Some(v@),
            None => None,
        }
    }
}

impl View for Kvpair {
    type V = PairData;

    open spec fn view(&self) -> PairData {
        PairData {
            key: self.key@,
            value: match self.value {
                Some(v) => Some(v@),
                None => None,
            },
        }
    }
}

impl View for CommandResponse {
    type V = ReplyData;

    open spec fn view(&self) -> ReplyData {
        ReplyData {
            status: self.status,
            message: self.message@,
            values: self.values@.map_values(|v: Value| v@),
            pairs: self.pairs@.map_values(|p: Kvpair| p@),
        }
    }
}

impl Clone for Value {
    fn clone(&self) -> (r: Self)
        ensures
            r == *self,
    {
        match &self.value {
            Some(v) => Value { value: Some(v.clone()) },
            None => Value { value: None },
        }
    }
}

impl Default for Value {
    fn default() -> (r: Self)
        ensures
            r.value is None,
    {
        Value { value: None }
    }
}

impl Clone for Kvpair {
    fn clone(&self) -> (r: Self)
        ensures
            r == *self,
    {
        let value = match &self.value {
            Some(v) => Some(v.clone()),
            None => None,
        };
        Kvpair { key: self.key.clone(), value }
    }
}

} // verus!
