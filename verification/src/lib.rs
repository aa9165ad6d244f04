//! An in-memory key-value store, organised in tables, that answers
//! protobuf-style command requests (`HGET`, `HSET`, `HEXIST`, ...).
//!
//! - [`pb`]: the request and response messages, their models and the
//!   replies that a command can give;
//! - [`error`]: the errors that a store or a command reports;
//! - [`storage`]: the [`Storage`] interface and the in-memory [`MemTable`];
//! - [`service`]: how each command runs ([`CommandService`]) and how a
//!   request is served ([`dispatch`], [`Service`]).

pub mod error;
pub mod pb;
pub mod service;
pub mod storage;

pub use error::{ErrorData, KvError};
pub use pb::abi::command_request;
pub use pb::abi::value;
pub use pb::abi::{
    CommandRequest, CommandResponse, Hdel, Hexist, Hget, Hgetall, Hset, Kvpair, PairData,
    ReplyData, Value,
};
pub use service::{
    answer_listing, answer_presence, answer_set, answer_slot, dispatch, CommandService, Service,
    ServiceInner,
};
pub use storage::{MemTable, Storage, StoreMap, StoreState};
