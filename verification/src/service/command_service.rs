//! How each command runs against a store, and how the store's answer is
//! turned into a reply.

use vstd::prelude::*;

use crate::error::{ErrorData, KvError};
use crate::pb::abi::value::ValueData;
use crate::pb::abi::{
    CommandResponse, Hdel, Hexist, Hget, Hgetall, Hset, Kvpair, PairData, ReplyData, Value,
};
use crate::pb::{error_reply, pairs_reply, value_reply};
use crate::storage::{
    key_views, lemma_without_push, lookup, without, lists_table, listing_result, presence_answer, presence_result, slot_answer, slot_result,
    Storage, StoreMap, StoreState,
};

use super::CommandService;

verus! {

/// The value that an `HSET` pair stores: its value, or the empty value.
pub open spec fn stored_value(p: Kvpair) -> Option<ValueData> {
    match p.value {
        Some(v) => v@,
        None => None,
    }
}

/// The reply to a read or a removal of one slot: the value the slot held,
/// `NotFound` for the table and key when it held nothing, or the store's
/// own error.
pub open spec fn slot_reply(
    table: Seq<char>,
    key: Seq<char>,
    got: Result<Option<Option<ValueData>>, ErrorData>,
) -> ReplyData {
    match got {
        Ok(Some(v)) => value_reply(v),
        Ok(None) => error_reply(ErrorData::NotFound(table, key)),
        Err(e) => error_reply(e),
    }
}

/// The reply to a write: the value the slot held before (the empty value
/// when it held none), or the store's own error.
pub open spec fn set_reply(got: Result<Option<Option<ValueData>>, ErrorData>) -> ReplyData {
    match got {
        Ok(Some(v)) => value_reply(v),
        Ok(None) => value_reply(None),
        Err(e) => error_reply(e),
    }
}

/// The reply to a presence check: a boolean value, or the store's own error.
pub open spec fn presence_reply(got: Result<bool, ErrorData>) -> ReplyData {
    match got {
        Ok(b) => value_reply(Some(ValueData::Bool(b))),
        Err(e) => error_reply(e),
    }
}

/// The reply to a listing: the pairs, in the order given, or the store's
/// own error.
pub open spec fn listing_reply(got: Result<Seq<PairData>, ErrorData>) -> ReplyData {
    match got {
        Ok(pairs) => pairs_reply(pairs),
        Err(e) => error_reply(e),
    }
}

/// Answers a read or a removal of `key` in `table` from what the store
/// returned.
pub fn answer_slot(table: String, key: String, got: Result<Option<Value>, KvError>) -> (r:
    CommandResponse)
    ensures
        r@ == slot_reply(table@, key@, slot_result(got)),
{
    match got {
        Ok(Some(v)) => CommandResponse::from(v),
        Ok(None) => CommandResponse::from(KvError::NotFound(table, key)),
        Err(e) => CommandResponse::from(e),
    }
}

/// Answers a write from what the store returned.
pub fn answer_set(got: Result<Option<Value>, KvError>) -> (r: CommandResponse)
    ensures
        r@ == set_reply(slot_result(got)),
{
    match got {
        Ok(Some(v)) => CommandResponse::from(v),
        Err(e) => CommandResponse::from(e),
        Ok(None) => CommandResponse::from(Value::default()),
    }
}

/// Answers a presence check from what the store returned.
pub fn answer_presence(got: Result<bool, KvError>) -> (r: CommandResponse)
    ensures
        r@ == presence_reply(presence_result(got)),
{
    match got {
        Ok(v) => CommandResponse::from(Value::from(v)),
        Err(e) => CommandResponse::from(e),
    }
}

/// Answers a listing from what the store returned.
pub fn answer_listing(got: Result<Vec<Kvpair>, KvError>) -> (r: CommandResponse)
    ensures
        r@ == listing_reply(listing_result(got)),
{
    match got {
        Ok(v) => CommandResponse::from(v),
        Err(e) => CommandResponse::from(e),
    }
}

impl CommandService for Hget {
    /// Reads the key: the value, `NotFound` for the table and key, or the
    /// store's error; the store is left as it was.
    open spec fn yields(self, before: StoreState, after: StoreMap, reply: ReplyData) -> bool {
        &&& after == before.contents
        &&& reply == slot_reply(
            self.table@,
            self.key@,
            slot_answer(
                before.contents,
                (before.get_failure)(self.table@, self.key@),
                self.table@,
                self.key@,
            ),
        )
    }

    fn execute<S: Storage>(self, store: &mut S) -> (r: CommandResponse) {
        let got = store.get(self.table.as_str(), self.key.as_str());
        answer_slot(self.table, self.key, got)
    }
}

impl CommandService for Hgetall {
    /// Every pair of the table, in no particular order, or the store's
    /// error; the store is left as it was.
    open spec fn yields(self, before: StoreState, after: StoreMap, reply: ReplyData) -> bool {
        &&& after == before.contents
        &&& match (before.get_all_failure)(self.table@) {
            Some(e) => reply == error_reply(e),
            None => reply == pairs_reply(reply.pairs) && lists_table(
                reply.pairs,
                before.contents,
                self.table@,
            ),
        }
    }

    fn execute<S: Storage>(self, store: &mut S) -> (r: CommandResponse) {
        let got = store.get_all(self.table.as_str());
        answer_listing(got)
    }
}

impl CommandService for Hset {
    /// Stores the pair's value (the empty value when it has none) and
    /// answers with the value the key held before (the empty value when it
    /// held none), or with the store's error, the store then left as it was;
    /// without a pair, answers with the empty value and asks the store nothing.
    open spec fn yields(self, before: StoreState, after: StoreMap, reply: ReplyData) -> bool {
        match self.pair {
            Some(p) => {
                let failure = (before.set_failure)(self.table@, p.key@, stored_value(p));
                &&& after == if failure is Some {
                    before.contents
                } else {
                    before.contents.insert((self.table@, p.key@), stored_value(p))
                }
                &&& reply == set_reply(
                    slot_answer(before.contents, failure, self.table@, p.key@),
                )
            },
            None => after == before.contents && reply == value_reply(None),
        }
    }

    fn execute<S: Storage>(self, store: &mut S) -> (r: CommandResponse) {
        match self.pair {
            Some(v) => {
                let value = match v.value {
                    Some(x) => x,
                    None => Value::default(),
                };
                let got = store.set(self.table.as_str(), v.key, value);
                answer_set(got)
            },
            None => CommandResponse::from(Value::default()),
        }
    }
}

impl CommandService for Hdel {
    /// Removes every listed key from the table, in order, and answers for
    /// the first one: the value it held, or `NotFound` when it held none. An
    /// empty key list is an invalid command. When the store reports an error
    /// for the first key, the store is left as it was and the reply is that
    /// error; when it reports one for a later key, the removals stop there,
    /// the keys before it stay removed, and the reply is an error (a store
    /// that never fails reports none).
    open spec fn yields(self, before: StoreState, after: StoreMap, reply: ReplyData) -> bool {
        let keys = key_views(self.keys@);
        if keys.len() == 0 {
            &&& after == before.contents
            &&& reply == error_reply(ErrorData::InvalidCommand("keys is empty"@))
        } else {
            match (before.del_failure)(self.table@, keys[0]) {
                Some(e) => after == before.contents && reply == error_reply(e),
                None => exists|n: int|
                    #![trigger keys.take(n)]
                    {
                        &&& 1 <= n <= keys.len()
                        &&& after == without(before.contents, self.table@, keys.take(n))
                        &&& n == keys.len() ==> reply == slot_reply(
                            self.table@,
                            keys[0],
                            Ok(lookup(before.contents, self.table@, keys[0])),
                        )
                        &&& n < keys.len() ==> !before.never_fails && exists|e: ErrorData|
                            reply == error_reply(e)
                    },
            }
        }
    }

    fn execute<S: Storage>(self, store: &mut S) -> (r: CommandResponse) {
        if self.keys.is_empty() {
            return CommandResponse::from(KvError::InvalidCommand("keys is empty".to_owned()));
        }
        let ghost before = *store;
        let ghost keys = key_views(self.keys@);
        let first = self.keys[0].clone();
        let got = store.del(self.table.as_str(), first.as_str());
        if got.is_err() {
            return answer_slot(self.table, first, got);
        }
        proof {
            assert(keys.take(1) =~= Seq::<Seq<char>>::empty().push(keys[0]));
            lemma_without_push(before.contents(), self.table@, Seq::empty(), keys[0]);
            assert(without(before.contents(), self.table@, Seq::empty()) =~= before.contents());
        }
        let mut i: usize = 1;
        while i < self.keys.len()
            invariant
                1 <= i <= self.keys@.len(),
                keys == key_views(self.keys@),
                store.contents() == without(before.contents(), self.table@, keys.take(i as int)),
                before.del_failure(self.table@, keys[0]) is None,
                before == *old(store),
            decreases self.keys@.len() - i,
        {
            let done = store.del(self.table.as_str(), self.keys[i].as_str());
            match done {
                Err(e) => {
                    let ghost reported = e@;
                    let r = CommandResponse::from(e);
                    proof {
                        assert(!S::never_fails());
                        assert(r@ == error_reply(reported));
                        assert(keys.take(i as int) == keys.take(i as int));
                    }
                    return r;
                },
                Ok(_) => {},
            }
            proof {
                assert(keys.take(i + 1) =~= keys.take(i as int).push(keys[i as int]));
                lemma_without_push(
                    before.contents(),
                    self.table@,
                    keys.take(i as int),
                    keys[i as int],
                );
            }
            i = i + 1;
        }
        assert(keys.take(i as int) == keys.take(self.keys@.len() as int));
        answer_slot(self.table, first, got)
    }
}

impl CommandService for Hexist {
    /// Whether the table holds the key, as a boolean value, or the store's
    /// error; the store is left as it was.
    open spec fn yields(self, before: StoreState, after: StoreMap, reply: ReplyData) -> bool {
        &&& after == before.contents
        &&& reply == presence_reply(
            presence_answer(
                before.contents,
                (before.contains_failure)(self.table@, self.key@),
                self.table@,
                self.key@,
            ),
        )
    }

    fn execute<S: Storage>(self, store: &mut S) -> (r: CommandResponse) {
        let got = store.contains(self.table.as_str(), self.key.as_str());
        answer_presence(got)
    }
}

} // verus!
