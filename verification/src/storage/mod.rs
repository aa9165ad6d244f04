//! The storage interface of the key-value server and the laws that every
//! store obeys.

mod memory;

pub use memory::MemTable;

use vstd::prelude::*;

use crate::error::{ErrorData, KvError};
use crate::pb::abi::value::ValueData;
use crate::pb::abi::{Kvpair, PairData, Value};

verus! {

/// The model of a store: the value held under each `(table, key)` slot.
pub type StoreMap = Map<(Seq<char>, Seq<char>), Option<ValueData>>;

/// What the store holds under `key` in `table`, if anything.
pub open spec fn lookup(m: StoreMap, table: Seq<char>, key: Seq<char>) -> Option<Option<ValueData>> {
    if m.contains_key((table, key)) {
        Some(m[(table, key)])
    } else {
        None
    }
}

/// The model of an optional value.
pub open spec fn opt_view(o: Option<Value>) -> Option<Option<ValueData>> {
    match o {
        Some(v) => Some(v@),
        None => None,
    }
}

/// `pairs` lists every key of `table` in `m` exactly once, each with the
/// value stored under it.
pub open spec fn lists_table(pairs: Seq<PairData>, m: StoreMap, table: Seq<char>) -> bool {
    &&& forall|i: int|
        0 <= i < pairs.len() ==> (#[trigger] pairs[i]).value is Some && pairs[i].value == lookup(
            m,
            table,
            pairs[i].key,
        )
    &&& forall|i: int, j: int| 0 <= i < j < pairs.len() ==> pairs[i].key != pairs[j].key
    &&& forall|k: Seq<char>|
        #[trigger] m.contains_key((table, k)) ==> exists|i: int|
            0 <= i < pairs.len() && (#[trigger] pairs[i]).key == k
}

/// The model of what `get`, `set` or `del` returns: the previous or
/// current value of a slot, or an error.
pub open spec fn slot_result(r: Result<Option<Value>, KvError>) -> Result<Option<Option<ValueData>>, ErrorData> {
    match r {
        Ok(v) => Ok(opt_view(v)),
        Err(e) => Err(e@),
    }
}

/// The model of what `contains` returns.
pub open spec fn presence_result(r: Result<bool, KvError>) -> Result<bool, ErrorData> {
    match r {
        Ok(b) => Ok(b),
        Err(e) => Err(e@),
    }
}

/// The model of what `get_all` returns.
pub open spec fn listing_result(r: Result<Vec<Kvpair>, KvError>) -> Result<Seq<PairData>, ErrorData> {
    match r {
        Ok(pairs) => Ok(pairs@.map_values(|p: Kvpair| p@)),
        Err(e) => Err(e@),
    }
}

/// What a store answers about one slot: the error it reports, or else what
/// the slot holds in `m`.
pub open spec fn slot_answer(
    m: StoreMap,
    failure: Option<ErrorData>,
    table: Seq<char>,
    key: Seq<char>,
) -> Result<Option<Option<ValueData>>, ErrorData> {
    match failure {
        Some(e) => Err(e),
        None => Ok(lookup(m, table, key)),
    }
}

/// What a store answers about the presence of one slot.
pub open spec fn presence_answer(
    m: StoreMap,
    failure: Option<ErrorData>,
    table: Seq<char>,
    key: Seq<char>,
) -> Result<bool, ErrorData> {
    match failure {
        Some(e) => Err(e),
        None => Ok(m.contains_key((table, key))),
    }
}

/// A key-value store organised in tables. A table exists as soon as it is
/// named; reading a key that was never written gives `None`.
///
/// A store may report errors. Which error an operation reports, if any, is
/// named by the `*_failure` functions of the store as it is when the
/// operation starts; an operation that reports an error changes nothing.
pub trait Storage: Sized {
    /// The pairs that the store holds.
    spec fn contents(&self) -> StoreMap;

    /// Whether no operation of this kind of store ever reports an error.
    spec fn never_fails() -> bool;

    /// The error that `get(table, key)` reports, or `None` when it answers.
    spec fn get_failure(&self, table: Seq<char>, key: Seq<char>) -> Option<ErrorData>;

    /// The error that `set(table, key, value)` reports, or `None` when it
    /// stores the value.
    spec fn set_failure(&self, table: Seq<char>, key: Seq<char>, value: Option<ValueData>) -> Option<
        ErrorData,
    >;

    /// The error that `contains(table, key)` reports, or `None` when it answers.
    spec fn contains_failure(&self, table: Seq<char>, key: Seq<char>) -> Option<ErrorData>;

    /// The error that `del(table, key)` reports, or `None` when it removes the key.
    spec fn del_failure(&self, table: Seq<char>, key: Seq<char>) -> Option<ErrorData>;

    /// The error that `get_all(table)` reports, or `None` when it answers.
    spec fn get_all_failure(&self, table: Seq<char>) -> Option<ErrorData>;

    /// The error that `get_iter(table)` reports, or `None` when it answers.
    spec fn get_iter_failure(&self, table: Seq<char>) -> Option<ErrorData>;

    /// The value under `key` in `table`.
    fn get(&self, table: &str, key: &str) -> (r: Result<Option<Value>, KvError>)
        ensures
            slot_result(r) == slot_answer(
                self.contents(),
                self.get_failure(table@, key@),
                table@,
                key@,
            ),
            Self::never_fails() ==> self.get_failure(table@, key@) is None,
    ;

    /// Stores `value` under `key` in `table` and gives back the value that
    /// was there before.
    fn set(&mut self, table: &str, key: String, value: Value) -> (r: Result<Option<Value>, KvError>)
        ensures
            slot_result(r) == slot_answer(
                old(self).contents(),
                old(self).set_failure(table@, key@, value@),
                table@,
                key@,
            ),
            final(self).contents() == if old(self).set_failure(table@, key@, value@) is Some {
                old(self).contents()
            } else {
                old(self).contents().insert((table@, key@), value@)
            },
            Self::never_fails() ==> old(self).set_failure(table@, key@, value@) is None,
    ;

    /// Whether `table` holds `key`.
    fn contains(&self, table: &str, key: &str) -> (r: Result<bool, KvError>)
        ensures
            presence_result(r) == presence_answer(
                self.contents(),
                self.contains_failure(table@, key@),
                table@,
                key@,
            ),
            Self::never_fails() ==> self.contains_failure(table@, key@) is None,
    ;

    /// Removes `key` from `table` and gives back the value that was there.
    fn del(&mut self, table: &str, key: &str) -> (r: Result<Option<Value>, KvError>)
        ensures
            slot_result(r) == slot_answer(
                old(self).contents(),
                old(self).del_failure(table@, key@),
                table@,
                key@,
            ),
            final(self).contents() == if old(self).del_failure(table@, key@) is Some {
                old(self).contents()
            } else {
                old(self).contents().remove((table@, key@))
            },
            Self::never_fails() ==> old(self).del_failure(table@, key@) is None,
    ;

    /// Every pair of `table`, in no particular order.
    fn get_all(&self, table: &str) -> (r: Result<Vec<Kvpair>, KvError>)
        ensures
            match self.get_all_failure(table@) {
                Some(e) => listing_result(r) == Err::<Seq<PairData>, ErrorData>(e),
                None => listing_result(r) matches Ok(pairs) && lists_table(
                    pairs,
                    self.contents(),
                    table@,
                ),
            },
            Self::never_fails() ==> self.get_all_failure(table@) is None,
    ;

    /// An iterator over every pair of `table`, in no particular order.
    fn get_iter(&self, table: &str) -> (r: Result<std::vec::IntoIter<Kvpair>, KvError>)
        ensures
            match self.get_iter_failure(table@) {
                Some(e) => r matches Err(x) && x@ == e,
                None => r matches Ok(it) && lists_table(
                    vstd::std_specs::vec::into_iter_elts(it).map_values(|p: Kvpair| p@),
                    self.contents(),
                    table@,
                ),
            },
            Self::never_fails() ==> self.get_iter_failure(table@) is None,
    ;
}

/// What a store is, as far as the commands can tell: the pairs it holds,
/// and the error, if any, that each operation would report on it.
pub struct StoreState {
    pub contents: StoreMap,
    pub never_fails: bool,
    pub get_failure: spec_fn(Seq<char>, Seq<char>) -> Option<ErrorData>,
    pub set_failure: spec_fn(Seq<char>, Seq<char>, Option<ValueData>) -> Option<ErrorData>,
    pub contains_failure: spec_fn(Seq<char>, Seq<char>) -> Option<ErrorData>,
    pub del_failure: spec_fn(Seq<char>, Seq<char>) -> Option<ErrorData>,
    pub get_all_failure: spec_fn(Seq<char>) -> Option<ErrorData>,
}

/// The state of the store `s`.
pub open spec fn state_of<S: Storage>(s: S) -> StoreState {
    StoreState {
        contents: s.contents(),
        never_fails: S::never_fails(),
        get_failure: |table: Seq<char>, key: Seq<char>| s.get_failure(table, key),
        set_failure: |table: Seq<char>, key: Seq<char>, value: Option<ValueData>|
            s.set_failure(table, key, value),
        contains_failure: |table: Seq<char>, key: Seq<char>| s.contains_failure(table, key),
        del_failure: |table: Seq<char>, key: Seq<char>| s.del_failure(table, key),
        get_all_failure: |table: Seq<char>| s.get_all_failure(table),
    }
}

/// The models of a list of keys.
pub open spec fn key_views(keys: Seq<String>) -> Seq<Seq<char>> {
    keys.map_values(|k: String| k@)
}

/// `m` without the slots of `table` at any of `keys`.
pub open spec fn without(m: StoreMap, table: Seq<char>, keys: Seq<Seq<char>>) -> StoreMap {
    m.remove_keys(Set::new(|p: (Seq<char>, Seq<char>)| p.0 == table && keys.contains(p.1)))
}

/// Removing one more key removes its slot from what is left.
pub proof fn lemma_without_push(m: StoreMap, table: Seq<char>, keys: Seq<Seq<char>>, key: Seq<char>)
    ensures
        without(m, table, keys.push(key)) == without(m, table, keys).remove((table, key)),
{
    assert forall|k: Seq<char>| keys.push(key).contains(k) <==> (keys.contains(k) || k == key) by {
        if keys.push(key).contains(k) {
            let i = choose|i: int| 0 <= i < keys.push(key).len() && keys.push(key)[i] == k;
            if i < keys.len() {
                assert(keys[i] == k);
            }
        }
        if keys.contains(k) {
            let i = choose|i: int| 0 <= i < keys.len() && keys[i] == k;
            assert(keys.push(key)[i] == k);
        }
        if k == key {
            assert(keys.push(key)[keys.len() as int] == k);
        }
    }
    assert(without(m, table, keys.push(key)) =~= without(m, table, keys).remove((table, key)));
}

/// `lookup` reads the map: the value held under the slot, or `None` when
/// the slot is empty.
pub proof fn law_lookup_reads_the_map(m: StoreMap, table: Seq<char>, key: Seq<char>)
    ensures
        m.contains_key((table, key)) ==> lookup(m, table, key) == Some(m[(table, key)]),
        !m.contains_key((table, key)) ==> lookup(m, table, key) is None,
{
}

/// What a store answers about a slot is the error it reports, if any, and
/// otherwise exactly what the slot holds; the same for presence.
pub proof fn law_answers_read_the_map(
    m: StoreMap,
    failure: Option<ErrorData>,
    table: Seq<char>,
    key: Seq<char>,
)
    ensures
        failure matches Some(e) ==> slot_answer(m, failure, table, key) == Err::<
            Option<Option<ValueData>>,
            ErrorData,
        >(e) && presence_answer(m, failure, table, key) == Err::<bool, ErrorData>(e),
        failure is None && m.contains_key((table, key)) ==> slot_answer(m, failure, table, key)
            == Ok::<Option<Option<ValueData>>, ErrorData>(Some(m[(table, key)])),
        failure is None && !m.contains_key((table, key)) ==> slot_answer(m, failure, table, key)
            == Ok::<Option<Option<ValueData>>, ErrorData>(None),
        failure is None ==> presence_answer(m, failure, table, key) == Ok::<bool, ErrorData>(
            m.contains_key((table, key)),
        ),
{
}

/// The models of what the store returns keep each value as it is.
pub proof fn law_results_keep_values(v: Value, e: KvError, pairs: Vec<Kvpair>)
    ensures
        slot_result(Ok(Some(v))) == Ok::<Option<Option<ValueData>>, ErrorData>(Some(v@)),
        slot_result(Ok(None)) == Ok::<Option<Option<ValueData>>, ErrorData>(None),
        slot_result(Err(e)) == Err::<Option<Option<ValueData>>, ErrorData>(e@),
        presence_result(Ok(true)) == Ok::<bool, ErrorData>(true),
        presence_result(Ok(false)) == Ok::<bool, ErrorData>(false),
        presence_result(Err(e)) == Err::<bool, ErrorData>(e@),
        listing_result(Ok(pairs)) matches Ok(ps) && ps.len() == pairs@.len() && forall|i: int|
            0 <= i < ps.len() ==> #[trigger] ps[i] == pairs@[i]@,
        listing_result(Err(e)) == Err::<Seq<PairData>, ErrorData>(e@),
{
}

/// A listing of a table names every key that the table holds, with its
/// value, names no other slot, and names no key twice.
pub proof fn law_listing_covers_the_table(pairs: Seq<PairData>, m: StoreMap, table: Seq<char>)
    requires
        lists_table(pairs, m, table),
    ensures
        forall|k: Seq<char>|
            #[trigger] m.contains_key((table, k)) ==> exists|i: int|
                0 <= i < pairs.len() && (#[trigger] pairs[i]).key == k && pairs[i].value == Some(
                    m[(table, k)],
                ),
        forall|i: int|
            0 <= i < pairs.len() ==> m.contains_key((table, (#[trigger] pairs[i]).key))
                && pairs[i].value == Some(m[(table, pairs[i].key)]),
        forall|i: int, j: int| 0 <= i < j < pairs.len() ==> pairs[i].key != pairs[j].key,
{
    assert forall|k: Seq<char>| #[trigger] m.contains_key((table, k)) implies exists|i: int|
        0 <= i < pairs.len() && (#[trigger] pairs[i]).key == k && pairs[i].value == Some(
            m[(table, k)],
        ) by {
        let i = choose|i: int| 0 <= i < pairs.len() && (#[trigger] pairs[i]).key == k;
        assert(pairs[i].key == k);
    }
}

/// Reading a slot right after writing it gives the value written.
pub proof fn law_get_after_set(m: StoreMap, table: Seq<char>, key: Seq<char>, value: Option<ValueData>)
    ensures
        lookup(m.insert((table, key), value), table, key) == Some(value),
{
}

/// Writing a slot leaves every other slot, of the same table or of
/// another one, as it was.
pub proof fn law_set_keeps_other_slots(
    m: StoreMap,
    table: Seq<char>,
    key: Seq<char>,
    value: Option<ValueData>,
    other_table: Seq<char>,
    other_key: Seq<char>,
)
    requires
        (table, key) != (other_table, other_key),
    ensures
        lookup(m.insert((table, key), value), other_table, other_key) == lookup(
            m,
            other_table,
            other_key,
        ),
{
}

/// After a delete, the slot holds nothing.
pub proof fn law_get_after_del(m: StoreMap, table: Seq<char>, key: Seq<char>)
    ensures
        lookup(m.remove((table, key)), table, key) is None,
        !m.remove((table, key)).contains_key((table, key)),
{
}

/// Deleting a slot that a write has just filled, where it held nothing
/// before, gives back the store as it was before the write.
pub proof fn law_del_undoes_set(m: StoreMap, table: Seq<char>, key: Seq<char>, value: Option<ValueData>)
    requires
        !m.contains_key((table, key)),
    ensures
        m.insert((table, key), value).remove((table, key)) == m,
{
    assert(m.insert((table, key), value).remove((table, key)) =~= m);
}

/// A key is present exactly when reading it gives a value.
pub proof fn law_contains_iff_get(m: StoreMap, table: Seq<char>, key: Seq<char>)
    ensures
        m.contains_key((table, key)) <==> lookup(m, table, key) is Some,
{
}

/// Two listings of the same table hold the same pairs, in some order, and
/// as many of them.
pub proof fn law_listing_is_unique_up_to_order(
    first: Seq<PairData>,
    second: Seq<PairData>,
    m: StoreMap,
    table: Seq<char>,
)
    requires
        lists_table(first, m, table),
        lists_table(second, m, table),
    ensures
        first.to_set() == second.to_set(),
        first.len() == second.len(),
{
    assert forall|p: PairData| first.to_set().contains(p) implies second.to_set().contains(p) by {
        let i = choose|i: int| 0 <= i < first.len() && first[i] == p;
        assert(first[i] == p);
        assert(m.contains_key((table, p.key)));
        let j = choose|j: int| 0 <= j < second.len() && (#[trigger] second[j]).key == p.key;
        assert(second[j] == p);
    }
    assert forall|p: PairData| second.to_set().contains(p) implies first.to_set().contains(p) by {
        let i = choose|i: int| 0 <= i < second.len() && second[i] == p;
        assert(second[i] == p);
        assert(m.contains_key((table, p.key)));
        let j = choose|j: int| 0 <= j < first.len() && (#[trigger] first[j]).key == p.key;
        assert(first[j] == p);
    }
    assert(first.to_set() =~= second.to_set());
    assert(first.no_duplicates());
    assert(second.no_duplicates());
    first.unique_seq_to_set();
    second.unique_seq_to_set();
}

} // verus!
