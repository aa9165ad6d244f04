use vstd::prelude::*;
use vstd::string::StringExecFns;

verus! {

/// The errors that a store or a command can report.
#[derive(Debug, Clone, PartialEq, Eq)]
pub enum KvError {
    /// No value under `key` in `table`: `NotFound(table, key)`.
    NotFound(String, String),
    /// The request could not be understood.
    InvalidCommand(String),
    /// Anything else that went wrong inside the server.
    Internal(String),
}

/// The mathematical model of a [`KvError`].
pub enum ErrorData {
    NotFound(Seq<char>, Seq<char>),
    InvalidCommand(Seq<char>),
    Internal(Seq<char>),
}

impl View for KvError {
    type V = ErrorData;

    open spec fn view(&self) -> ErrorData {
        match self {
            KvError::NotFound(t, k) => ErrorData::NotFound(t@, k@),
            KvError::InvalidCommand(c) => ErrorData::InvalidCommand(c@),
            KvError::Internal(m) => ErrorData::Internal(m@),
        }
    }
}

impl ErrorData {
    /// The human-readable text of an error.
    pub open spec fn message(self) -> Seq<char> {
        match self {
            ErrorData::NotFound(t, k) => "Not Found for table: "@ + t + ", key: "@ + k,
            ErrorData::InvalidCommand(c) => "Cannot parse command: `"@ + c + "`"@,
            ErrorData::Internal(m) => "Internal error: "@ + m,
        }
    }
}

impl KvError {
    /// The human-readable text of the error, as shown to clients.
    pub fn message(&self) -> (r: String)
        ensures
            r@ == self@.message(),
    {
        match self {
            KvError::NotFound(t, k) => String::from_str("Not Found for table: ").concat(
                t.as_str(),
            ).concat(", key: ").concat(k.as_str()),
            KvError::InvalidCommand(c) => String::from_str("Cannot parse command: `").concat(
                c.as_str(),
            ).concat("`"),
            KvError::Internal(m) => String::from_str("Internal error: ").concat(m.as_str()),
        }
    }
}

} // verus!
