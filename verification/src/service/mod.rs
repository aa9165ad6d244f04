//! Executing command requests against a store.

mod command_service;
pub mod laws;

use vstd::prelude::*;

use crate::error::{ErrorData, KvError};
use crate::pb::abi::command_request::RequestData;
use crate::pb::abi::value::ValueData;
use crate::pb::abi::{CommandRequest, CommandResponse, Hdel, Hexist, Hget, Hgetall, Hset, ReplyData};
use crate::pb::{error_reply, value_reply};
use crate::storage::{
    key_views, lookup, state_of, without, MemTable, Storage, StoreMap, StoreState,
};

pub use command_service::{
    answer_listing, answer_presence, answer_set, answer_slot, listing_reply, presence_reply,
    set_reply, slot_reply, stored_value,
};

verus! {

/// A command that can be run against a store.
pub trait CommandService: Sized {
    /// `after` (the pairs the store then holds) and `reply` are what the
    /// command yields on the store `before`, including the errors that the
    /// store reports.
    spec fn yields(self, before: StoreState, after: StoreMap, reply: ReplyData) -> bool;

    /// Runs the command against `store`.
    fn execute<S: Storage>(self, store: &mut S) -> (r: CommandResponse)
        ensures
            self.yields(state_of(*old(store)), final(store).contents(), r@),
    ;
}

/// `after` and `reply` are what serving `cmd` yields on the store `before`:
/// `HGET`, `HSET` and `HEXIST` run as their own `execute` does; a request
/// without a command is invalid; the other commands are not served.
pub open spec fn request_yields(
    cmd: CommandRequest,
    before: StoreState,
    after: StoreMap,
    reply: ReplyData,
) -> bool {
    match cmd.request_data {
        Some(RequestData::Hget(h)) => h.yields(before, after, reply),
        Some(RequestData::Hset(h)) => h.yields(before, after, reply),
        Some(RequestData::Hexist(h)) => h.yields(before, after, reply),
        None => after == before.contents && reply == error_reply(
            ErrorData::InvalidCommand("request has no data"@),
        ),
        _ => after == before.contents && reply == error_reply(
            ErrorData::Internal("not implemented"@),
        ),
    }
}

/// Serves one request against `store`.
pub fn dispatch<S: Storage>(cmd: CommandRequest, store: &mut S) -> (r: CommandResponse)
    ensures
        request_yields(cmd, state_of(*old(store)), final(store).contents(), r@),
{
    match cmd.request_data {
        Some(RequestData::Hget(param)) => param.execute(store),
        Some(RequestData::Hset(param)) => param.execute(store),
        Some(RequestData::Hexist(param)) => param.execute(store),
        None => CommandResponse::from(KvError::InvalidCommand("request has no data".to_owned())),
        _ => CommandResponse::from(KvError::Internal("not implemented".to_owned())),
    }
}

/// The store that a [`Service`] serves requests against.
pub struct ServiceInner<Store> {
    store: Store,
}

/// A server-side handle that serves requests against the store it owns.
pub struct Service<Store = MemTable> {
    inner: ServiceInner<Store>,
}

impl<Store: Storage> Service<Store> {
    /// The store that the service owns.
    pub closed spec fn store(&self) -> Store {
        self.inner.store
    }

    /// A service over `store`.
    pub fn new(store: Store) -> (r: Self)
        ensures
            r.store() == store,
    {
        Service { inner: ServiceInner { store } }
    }

    /// Serves one request against the service's store, as [`dispatch`] does.
    pub fn execute(&mut self, cmd: CommandRequest) -> (r: CommandResponse)
        ensures
            request_yields(cmd, state_of(old(self).store()), final(self).store().contents(), r@),
    {
        dispatch(cmd, &mut self.inner.store)
    }
}

/// Serving a request that carries `HGET`, `HSET` or `HEXIST` yields what
/// that command's own `execute` yields on the same store.
pub proof fn law_dispatch_runs_the_command(
    get: Hget,
    set: Hset,
    exist: Hexist,
    before: StoreState,
    after: StoreMap,
    reply: ReplyData,
)
    ensures
        request_yields(
            CommandRequest { request_data: Some(RequestData::Hget(get)) },
            before,
            after,
            reply,
        ) == get.yields(before, after, reply),
        request_yields(
            CommandRequest { request_data: Some(RequestData::Hset(set)) },
            before,
            after,
            reply,
        ) == set.yields(before, after, reply),
        request_yields(
            CommandRequest { request_data: Some(RequestData::Hexist(exist)) },
            before,
            after,
            reply,
        ) == exist.yields(before, after, reply),
{
}

/// A reply that reports an error carries status 404 for `NotFound`, 400
/// for `InvalidCommand` and 500 for every other error, the error's text, and
/// neither values nor pairs.
pub proof fn law_error_replies(e: ErrorData)
    ensures
        error_reply(e).status == 404 <==> e is NotFound,
        error_reply(e).status == 400 <==> e is InvalidCommand,
        error_reply(e).status == 500 <==> e is Internal,
        error_reply(e).message == e.message(),
        error_reply(e).values.len() == 0,
        error_reply(e).pairs.len() == 0,
{
}

/// An error that the store reports when a command asks it is the error
/// the reply reports, and the store is left as it was.
pub proof fn law_store_errors_are_reported(
    get: Hget,
    set: Hset,
    exist: Hexist,
    before: StoreState,
    after: StoreMap,
    reply: ReplyData,
    e: ErrorData,
)
    ensures
        get.yields(before, after, reply) && (before.get_failure)(get.table@, get.key@) == Some(e)
            ==> reply == error_reply(e) && after == before.contents,
        exist.yields(before, after, reply) && (before.contains_failure)(exist.table@, exist.key@)
            == Some(e) ==> reply == error_reply(e) && after == before.contents,
        set.yields(before, after, reply) && (set.pair matches Some(p) && (before.set_failure)(
            set.table@,
            p.key@,
            stored_value(p),
        ) == Some(e)) ==> reply == error_reply(e) && after == before.contents,
{
}

/// Reading commands leave the store as it was.
pub proof fn law_reads_leave_store_unchanged(
    get: Hget,
    all: Hgetall,
    exist: Hexist,
    before: StoreState,
    after: StoreMap,
    reply: ReplyData,
)
    ensures
        get.yields(before, after, reply) ==> after == before.contents,
        all.yields(before, after, reply) ==> after == before.contents,
        exist.yields(before, after, reply) ==> after == before.contents,
{
}

/// When the store answers, an `HGET` of the slot that an `HSET` has just
/// written answers with the value written, and leaves the store as it is.
pub proof fn law_hget_reads_hset(
    set: Hset,
    get: Hget,
    s0: StoreState,
    s1: StoreState,
    r1: ReplyData,
    m2: StoreMap,
    r2: ReplyData,
)
    requires
        set.pair matches Some(p) && get.key@ == p.key@,
        get.table@ == set.table@,
        (s0.set_failure)(set.table@, set.pair.unwrap().key@, stored_value(set.pair.unwrap())) is None,
        (s1.get_failure)(get.table@, get.key@) is None,
        set.yields(s0, s1.contents, r1),
        get.yields(s1, m2, r2),
    ensures
        r2 == value_reply(stored_value(set.pair.unwrap())),
        m2 == s1.contents,
{
}

/// When the store answers, an `HSET` answers with the value the slot held
/// before: the empty value for a slot that held nothing, and the value of an
/// earlier `HSET` of the same slot otherwise.
pub proof fn law_hset_answers_previous(
    first: Hset,
    second: Hset,
    s0: StoreState,
    s1: StoreState,
    r1: ReplyData,
    m2: StoreMap,
    r2: ReplyData,
)
    requires
        first.pair matches Some(p) && (second.pair matches Some(q) && q.key@ == p.key@),
        second.table@ == first.table@,
        (s0.set_failure)(first.table@, first.pair.unwrap().key@, stored_value(first.pair.unwrap()))
            is None,
        (s1.set_failure)(
            second.table@,
            second.pair.unwrap().key@,
            stored_value(second.pair.unwrap()),
        ) is None,
        first.yields(s0, s1.contents, r1),
        second.yields(s1, m2, r2),
    ensures
        !s0.contents.contains_key((first.table@, first.pair.unwrap().key@)) ==> r1
            == value_reply(None),
        r2 == value_reply(stored_value(first.pair.unwrap())),
        m2 == s0.contents.insert(
            (first.table@, first.pair.unwrap().key@),
            stored_value(second.pair.unwrap()),
        ),
{
    assert(m2 =~= s0.contents.insert(
        (first.table@, first.pair.unwrap().key@),
        stored_value(second.pair.unwrap()),
    ));
}

/// When the store answers, an `HGET` of a slot that holds nothing answers
/// with status 404 and a message that starts with "Not Found", and leaves
/// the store as it is.
pub proof fn law_hget_missing_is_not_found(
    get: Hget,
    s: StoreState,
    after: StoreMap,
    reply: ReplyData,
)
    requires
        !s.contents.contains_key((get.table@, get.key@)),
        (s.get_failure)(get.table@, get.key@) is None,
        get.yields(s, after, reply),
    ensures
        reply.status == 404,
        reply.message.len() >= 9 && reply.message.subrange(0, 9) == "Not Found"@,
        reply.values.len() == 0,
        reply.pairs.len() == 0,
        after == s.contents,
{
    reveal_strlit("Not Found for table: ");
    reveal_strlit("Not Found");
    let msg = ErrorData::NotFound(get.table@, get.key@).message();
    assert(msg.subrange(0, 9) =~= "Not Found"@);
}

/// When the store answers, `HEXIST` answers `true` for a slot that an
/// `HSET` has just written.
pub proof fn law_hexist_after_hset(
    set: Hset,
    exist: Hexist,
    s0: StoreState,
    s1: StoreState,
    r1: ReplyData,
    m2: StoreMap,
    r2: ReplyData,
)
    requires
        set.pair matches Some(p) && exist.key@ == p.key@,
        exist.table@ == set.table@,
        (s0.set_failure)(set.table@, set.pair.unwrap().key@, stored_value(set.pair.unwrap())) is None,
        (s1.contains_failure)(exist.table@, exist.key@) is None,
        set.yields(s0, s1.contents, r1),
        exist.yields(s1, m2, r2),
    ensures
        r2 == value_reply(Some(ValueData::Bool(true))),
{
}

/// When the store never fails, `HDEL` removes every listed key of the
/// table, leaves every other slot as it was, and answers for the first key:
/// the value it held, or `NotFound`.
pub proof fn law_hdel_removes_every_key(del: Hdel, s: StoreState, after: StoreMap, reply: ReplyData)
    requires
        del.keys@.len() > 0,
        s.never_fails,
        (s.del_failure)(del.table@, del.keys@[0]@) is None,
        del.yields(s, after, reply),
    ensures
        after == without(s.contents, del.table@, key_views(del.keys@)),
        forall|i: int|
            0 <= i < del.keys@.len() ==> !after.contains_key((del.table@, (#[trigger] del.keys@[i])@)),
        reply == slot_reply(
            del.table@,
            del.keys@[0]@,
            Ok(lookup(s.contents, del.table@, del.keys@[0]@)),
        ),
{
    let keys = key_views(del.keys@);
    let n = choose|n: int|
        #![trigger keys.take(n)]
        {
            &&& 1 <= n <= keys.len()
            &&& after == without(s.contents, del.table@, keys.take(n))
            &&& n == keys.len() ==> reply == slot_reply(
                del.table@,
                keys[0],
                Ok(lookup(s.contents, del.table@, keys[0])),
            )
            &&& n < keys.len() ==> !s.never_fails && exists|e: ErrorData| reply == error_reply(e)
        };
    assert(keys.take(n) =~= keys);
    assert forall|i: int| 0 <= i < del.keys@.len() implies !after.contains_key(
        (del.table@, (#[trigger] del.keys@[i])@),
    ) by {
        assert(keys[i] == del.keys@[i]@);
        assert(keys.contains(keys[i]));
    }
}

/// When the store never fails, `HEXIST` answers `false` for any key that
/// an `HDEL` has just removed.
pub proof fn law_hexist_after_hdel(
    del: Hdel,
    exist: Hexist,
    j: int,
    s0: StoreState,
    s1: StoreState,
    r1: ReplyData,
    m2: StoreMap,
    r2: ReplyData,
)
    requires
        0 <= j < del.keys@.len(),
        exist.key@ == del.keys@[j]@,
        exist.table@ == del.table@,
        s0.never_fails,
        (s0.del_failure)(del.table@, del.keys@[0]@) is None,
        (s1.contains_failure)(exist.table@, exist.key@) is None,
        del.yields(s0, s1.contents, r1),
        exist.yields(s1, m2, r2),
    ensures
        r2 == value_reply(Some(ValueData::Bool(false))),
{
    law_hdel_removes_every_key(del, s0, s1.contents, r1);
    assert(!s1.contents.contains_key((del.table@, del.keys@[j]@)));
}

/// When the store never fails, an `HDEL` of the one slot that an `HSET` has
/// just filled, where it held nothing before, answers with the value
/// written and gives back the pairs held before the `HSET`.
pub proof fn law_hdel_undoes_hset(
    set: Hset,
    del: Hdel,
    s0: StoreState,
    s1: StoreState,
    r1: ReplyData,
    m2: StoreMap,
    r2: ReplyData,
)
    requires
        set.pair matches Some(p) && (del.keys@.len() > 0 && forall|i: int|
            0 <= i < del.keys@.len() ==> (#[trigger] del.keys@[i])@ == p.key@),
        del.table@ == set.table@,
        !s0.contents.contains_key((set.table@, set.pair.unwrap().key@)),
        (s0.set_failure)(set.table@, set.pair.unwrap().key@, stored_value(set.pair.unwrap())) is None,
        s1.never_fails,
        (s1.del_failure)(del.table@, del.keys@[0]@) is None,
        set.yields(s0, s1.contents, r1),
        del.yields(s1, m2, r2),
    ensures
        r2 == value_reply(stored_value(set.pair.unwrap())),
        m2 == s0.contents,
{
    law_hdel_removes_every_key(del, s1, m2, r2);
    let keys = key_views(del.keys@);
    let k = set.pair.unwrap().key@;
    assert forall|x: Seq<char>| keys.contains(x) <==> x == k by {
        if keys.contains(x) {
            let i = choose|i: int| 0 <= i < keys.len() && keys[i] == x;
            assert(del.keys@[i]@ == k);
        }
        if x == k {
            assert(keys[0] == k);
        }
    }
    assert(m2 =~= s0.contents);
}

} // verus!
