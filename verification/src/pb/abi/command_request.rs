use vstd::prelude::*;

use super::{Hdel, Hexist, Hget, Hgetall, Hset};

verus! {

/// The command that a [`super::CommandRequest`] carries.
#[derive(Clone, Debug, PartialEq)]
pub enum RequestData {
    Hget(Hget),
    Hgetall(Hgetall),
    Hset(Hset),
    Hexist(Hexist),
    Hdel(Hdel),
}

} // verus!
