//! What each command does, stated directly over its request, the store it
//! runs on and its reply, for every input where the store answers.

use vstd::prelude::*;

use crate::pb::abi::value::ValueData;
use crate::pb::abi::command_request::RequestData;
use crate::pb::abi::{CommandRequest, Hdel, Hexist, Hget, Hgetall, Hset, PairData, ReplyData};
use crate::pb::{pairs_reply, value_reply};
use crate::storage::{StoreMap, StoreState};

use super::{request_yields, CommandService};

verus! {

/// A success reply that carries one value has status 200, no message, that
/// value and nothing else.
pub proof fn law_value_reply_carries_the_value(v: Option<ValueData>)
    ensures
        value_reply(v).status == 200,
        value_reply(v).message.len() == 0,
        value_reply(v).values == seq![v],
        value_reply(v).pairs.len() == 0,
{
}

/// A success reply that carries pairs has status 200, no message, no
/// values, and those pairs in their order.
pub proof fn law_pairs_reply_carries_the_pairs(pairs: Seq<PairData>)
    ensures
        pairs_reply(pairs).status == 200,
        pairs_reply(pairs).message.len() == 0,
        pairs_reply(pairs).values.len() == 0,
        pairs_reply(pairs).pairs == pairs,
{
}

/// When the store answers, `HGET` replies with status 200 and exactly the
/// value the slot holds, or with status 404 and no value when it holds
/// none, and changes nothing.
pub proof fn law_hget_answers_the_stored_value(
    get: Hget,
    before: StoreState,
    after: StoreMap,
    reply: ReplyData,
)
    requires
        (before.get_failure)(get.table@, get.key@) is None,
        get.yields(before, after, reply),
    ensures
        after == before.contents,
        before.contents.contains_key((get.table@, get.key@)) ==> {
            &&& reply.status == 200
            &&& reply.message.len() == 0
            &&& reply.values == seq![before.contents[(get.table@, get.key@)]]
            &&& reply.pairs.len() == 0
        },
        !before.contents.contains_key((get.table@, get.key@)) ==> {
            &&& reply.status == 404
            &&& reply.values.len() == 0
            &&& reply.pairs.len() == 0
        },
{
}

/// When the store answers, `HSET` of a pair stores exactly the pair's own
/// value under its key (the empty value when the pair has none), changes no
/// other slot, and replies with status 200 and the value the slot held
/// before (the empty value when it held none).
pub proof fn law_hset_stores_the_pair_value(
    set: Hset,
    before: StoreState,
    after: StoreMap,
    reply: ReplyData,
)
    requires
        set.pair is Some,
        (before.set_failure)(
            set.table@,
            set.pair.unwrap().key@,
            match set.pair.unwrap().value {
                Some(val) => val@,
                None => None,
            },
        ) is None,
        set.yields(before, after, reply),
    ensures
        after == before.contents.insert(
            (set.table@, set.pair.unwrap().key@),
            match set.pair.unwrap().value {
                Some(val) => val@,
                None => None,
            },
        ),
        set.pair.unwrap().value matches Some(val) ==> after[(set.table@, set.pair.unwrap().key@)]
            == val@,
        reply.status == 200,
        reply.message.len() == 0,
        reply.pairs.len() == 0,
        reply.values == seq![
            if before.contents.contains_key((set.table@, set.pair.unwrap().key@)) {
                before.contents[(set.table@, set.pair.unwrap().key@)]
            } else {
                None
            },
        ],
{
}

/// An `HSET` without a pair changes nothing and replies with status 200 and
/// the empty value.
pub proof fn law_hset_without_pair(set: Hset, before: StoreState, after: StoreMap, reply: ReplyData)
    requires
        set.pair is None,
        set.yields(before, after, reply),
    ensures
        after == before.contents,
        reply.status == 200,
        reply.values == seq![None::<ValueData>],
        reply.pairs.len() == 0,
{
}

/// When the store answers, `HGETALL` replies with status 200, no values,
/// and every pair of the table once: each key the table holds appears with
/// the value it holds, nothing else appears, and no key appears twice. It
/// changes nothing.
pub proof fn law_hgetall_lists_every_pair(
    all: Hgetall,
    before: StoreState,
    after: StoreMap,
    reply: ReplyData,
)
    requires
        (before.get_all_failure)(all.table@) is None,
        all.yields(before, after, reply),
    ensures
        after == before.contents,
        reply.status == 200,
        reply.message.len() == 0,
        reply.values.len() == 0,
        forall|k: Seq<char>|
            #[trigger] before.contents.contains_key((all.table@, k)) ==> exists|i: int|
                0 <= i < reply.pairs.len() && (#[trigger] reply.pairs[i]).key == k
                    && reply.pairs[i].value == Some(before.contents[(all.table@, k)]),
        forall|i: int|
            0 <= i < reply.pairs.len() ==> before.contents.contains_key(
                (all.table@, (#[trigger] reply.pairs[i]).key),
            ) && reply.pairs[i].value == Some(before.contents[(all.table@, reply.pairs[i].key)]),
        forall|i: int, j: int|
            0 <= i < j < reply.pairs.len() ==> reply.pairs[i].key != reply.pairs[j].key,
{
    assert forall|k: Seq<char>| #[trigger] before.contents.contains_key((all.table@, k)) implies exists|
        i: int,
    |
        0 <= i < reply.pairs.len() && (#[trigger] reply.pairs[i]).key == k && reply.pairs[i].value
            == Some(before.contents[(all.table@, k)]) by {
        let i = choose|i: int| 0 <= i < reply.pairs.len() && (#[trigger] reply.pairs[i]).key == k;
        assert(reply.pairs[i].key == k);
    }
}

/// When the store answers, `HEXIST` replies with status 200 and the boolean
/// that says whether the table holds the key, and changes nothing.
pub proof fn law_hexist_answers_presence(
    exist: Hexist,
    before: StoreState,
    after: StoreMap,
    reply: ReplyData,
)
    requires
        (before.contains_failure)(exist.table@, exist.key@) is None,
        exist.yields(before, after, reply),
    ensures
        after == before.contents,
        reply.status == 200,
        reply.message.len() == 0,
        reply.values == seq![
            Some(ValueData::Bool(before.contents.contains_key((exist.table@, exist.key@)))),
        ],
        reply.pairs.len() == 0,
{
}

/// When the store never fails, `HDEL` of a non-empty key list removes every
/// listed key of the table, keeps every other slot with its value, and
/// replies for the first key: status 200 and the value it held, or status
/// 404 and no value when it held none.
pub proof fn law_hdel_removes_the_listed_keys(
    del: Hdel,
    before: StoreState,
    after: StoreMap,
    reply: ReplyData,
)
    requires
        del.keys@.len() > 0,
        before.never_fails,
        (before.del_failure)(del.table@, del.keys@[0]@) is None,
        del.yields(before, after, reply),
    ensures
        forall|i: int|
            0 <= i < del.keys@.len() ==> !after.contains_key((del.table@, (#[trigger] del.keys@[i])@)),
        forall|t: Seq<char>, k: Seq<char>|
            (t != del.table@ || forall|i: int| 0 <= i < del.keys@.len() ==> (#[trigger] del.keys@[i])@ != k)
                ==> (#[trigger] after.contains_key((t, k)) == before.contents.contains_key((t, k))
                && (after.contains_key((t, k)) ==> after[(t, k)] == before.contents[(t, k)])),
        before.contents.contains_key((del.table@, del.keys@[0]@)) ==> {
            &&& reply.status == 200
            &&& reply.values == seq![before.contents[(del.table@, del.keys@[0]@)]]
            &&& reply.pairs.len() == 0
        },
        !before.contents.contains_key((del.table@, del.keys@[0]@)) ==> {
            &&& reply.status == 404
            &&& reply.values.len() == 0
            &&& reply.pairs.len() == 0
        },
{
    super::law_hdel_removes_every_key(del, before, after, reply);
    let keys = crate::storage::key_views(del.keys@);
    assert forall|t: Seq<char>, k: Seq<char>|
        (t != del.table@ || forall|i: int| 0 <= i < del.keys@.len() ==> (#[trigger] del.keys@[i])@ != k)
            implies (#[trigger] after.contains_key((t, k)) == before.contents.contains_key((t, k))
            && (after.contains_key((t, k)) ==> after[(t, k)] == before.contents[(t, k)])) by {
        if t == del.table@ {
            if keys.contains(k) {
                let i = choose|i: int| 0 <= i < keys.len() && keys[i] == k;
                assert(del.keys@[i]@ == k);
            }
        }
    }
}

/// A request without a command is answered with status 400, and a request
/// for `HGETALL` or `HDEL` with status 500; neither changes the store.
pub proof fn law_dispatch_rejects_unserved_requests(
    cmd: CommandRequest,
    before: StoreState,
    after: StoreMap,
    reply: ReplyData,
)
    requires
        request_yields(cmd, before, after, reply),
    ensures
        cmd.request_data is None ==> reply.status == 400 && reply.values.len() == 0 && after
            == before.contents,
        (cmd.request_data matches Some(RequestData::Hgetall(_)) || cmd.request_data matches Some(
            RequestData::Hdel(_),
        )) ==> reply.status == 500 && reply.values.len() == 0 && after == before.contents,
{
}

} // verus!
