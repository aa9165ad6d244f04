//! A store that keeps its pairs in memory.

use vstd::prelude::*;

use crate::error::{ErrorData, KvError};
use crate::pb::abi::value::ValueData;
use crate::pb::abi::{Kvpair, PairData, Value};

use super::{lists_table, lookup, Storage, StoreMap};

verus! {

/// One stored pair, with the table it belongs to.
#[derive(Debug)]
struct Slot {
    table: String,
    key: String,
    value: Value,
}

/// The `(table, key)` place of a slot.
spec fn place(s: Slot) -> (Seq<char>, Seq<char>) {
    (s.table@, s.key@)
}

/// No two slots share a place.
spec fn distinct(s: Seq<Slot>) -> bool {
    forall|i: int, j: int| 0 <= i < j < s.len() ==> place(s[i]) != place(s[j])
}

/// The store that a sequence of slots holds.
spec fn model(s: Seq<Slot>) -> StoreMap {
    Map::new(
        |p: (Seq<char>, Seq<char>)| exists|i: int| 0 <= i < s.len() && place(s[i]) == p,
        |p: (Seq<char>, Seq<char>)| s[choose|i: int| 0 <= i < s.len() && place(s[i]) == p].value@,
    )
}

proof fn lemma_model_at(s: Seq<Slot>, i: int)
    requires
        distinct(s),
        0 <= i < s.len(),
    ensures
        model(s).contains_key(place(s[i])),
        model(s)[place(s[i])] == s[i].value@,
{
    let p = place(s[i]);
    assert(exists|j: int| 0 <= j < s.len() && place(s[j]) == p);
    let j = choose|j: int| 0 <= j < s.len() && place(s[j]) == p;
    if j != i {
        if j < i {
            assert(place(s[j]) != place(s[i]));
        } else {
            assert(place(s[i]) != place(s[j]));
        }
    }
}

proof fn lemma_model_absent(s: Seq<Slot>, p: (Seq<char>, Seq<char>))
    requires
        forall|i: int| 0 <= i < s.len() ==> place(#[trigger] s[i]) != p,
    ensures
        !model(s).contains_key(p),
{
}

proof fn lemma_model_push(s: Seq<Slot>, e: Slot)
    requires
        distinct(s),
        !model(s).contains_key(place(e)),
    ensures
        distinct(s.push(e)),
        model(s.push(e)) == model(s).insert(place(e), e.value@),
{
    let t = s.push(e);
    assert forall|i: int| 0 <= i < s.len() implies place(s[i]) != place(e) by {
        lemma_model_at(s, i);
    }
    assert(distinct(t)) by {
        assert forall|i: int, j: int| 0 <= i < j < t.len() implies place(t[i]) != place(t[j]) by {
            if j == s.len() {
                assert(t[j] == e);
            }
        }
    }
    let m = model(s).insert(place(e), e.value@);
    assert forall|p: (Seq<char>, Seq<char>)| #[trigger] model(t).contains_key(p) == m.contains_key(p) by {
        if m.contains_key(p) {
            if p == place(e) {
                assert(place(t[s.len() as int]) == p);
            } else {
                let i = choose|i: int| 0 <= i < s.len() && place(s[i]) == p;
                assert(place(t[i]) == p);
            }
        }
        if model(t).contains_key(p) {
            let i = choose|i: int| 0 <= i < t.len() && place(t[i]) == p;
            if i < s.len() {
                assert(place(s[i]) == p);
            }
        }
    }
    assert forall|p: (Seq<char>, Seq<char>)| #[trigger] model(t).contains_key(p) implies model(t)[p]
        == m[p] by {
        let i = choose|i: int| 0 <= i < t.len() && place(t[i]) == p;
        lemma_model_at(t, i);
        if i < s.len() {
            assert(t[i] == s[i]);
            lemma_model_at(s, i);
        }
    }
    assert(model(t) =~= m);
}

proof fn lemma_model_update(s: Seq<Slot>, i: int, e: Slot)
    requires
        distinct(s),
        0 <= i < s.len(),
        place(e) == place(s[i]),
    ensures
        distinct(s.update(i, e)),
        model(s.update(i, e)) == model(s).insert(place(e), e.value@),
{
    let t = s.update(i, e);
    assert(distinct(t)) by {
        assert forall|a: int, b: int| 0 <= a < b < t.len() implies place(t[a]) != place(t[b]) by {
            assert(place(t[a]) == place(s[a]));
            assert(place(t[b]) == place(s[b]));
        }
    }
    let m = model(s).insert(place(e), e.value@);
    lemma_model_at(s, i);
    assert forall|p: (Seq<char>, Seq<char>)| #[trigger] model(t).contains_key(p) == m.contains_key(p) by {
        if m.contains_key(p) {
            if p == place(e) {
                assert(place(t[i]) == p);
            } else {
                let j = choose|j: int| 0 <= j < s.len() && place(s[j]) == p;
                assert(place(t[j]) == p);
            }
        }
        if model(t).contains_key(p) {
            let j = choose|j: int| 0 <= j < t.len() && place(t[j]) == p;
            assert(place(s[j]) == p);
        }
    }
    assert forall|p: (Seq<char>, Seq<char>)| #[trigger] model(t).contains_key(p) implies model(t)[p]
        == m[p] by {
        let j = choose|j: int| 0 <= j < t.len() && place(t[j]) == p;
        lemma_model_at(t, j);
        if j != i {
            lemma_model_at(s, j);
        }
    }
    assert(model(t) =~= m);
}

proof fn lemma_model_remove(s: Seq<Slot>, i: int)
    requires
        distinct(s),
        0 <= i < s.len(),
    ensures
        distinct(s.remove(i)),
        model(s.remove(i)) == model(s).remove(place(s[i])),
{
    let t = s.remove(i);
    assert(forall|a: int| 0 <= a < t.len() ==> #[trigger] t[a] == if a < i { s[a] } else { s[a + 1] });
    assert(distinct(t)) by {
        assert forall|a: int, b: int| 0 <= a < b < t.len() implies place(t[a]) != place(t[b]) by {
            let a2 = if a < i { a } else { a + 1 };
            let b2 = if b < i { b } else { b + 1 };
            assert(t[a] == s[a2]);
            assert(t[b] == s[b2]);
        }
    }
    let m = model(s).remove(place(s[i]));
    assert forall|p: (Seq<char>, Seq<char>)| #[trigger] model(t).contains_key(p) == m.contains_key(p) by {
        if m.contains_key(p) {
            let j = choose|j: int| 0 <= j < s.len() && place(s[j]) == p;
            if j < i {
                assert(place(t[j]) == p);
            } else {
                assert(j != i);
                assert(place(t[j - 1]) == p);
            }
        }
        if model(t).contains_key(p) {
            let j = choose|j: int| 0 <= j < t.len() && place(t[j]) == p;
            let j2 = if j < i { j } else { j + 1 };
            assert(place(s[j2]) == p);
            if p == place(s[i]) {
                if j2 < i {
                    assert(place(s[j2]) != place(s[i]));
                } else {
                    assert(place(s[i]) != place(s[j2]));
                }
            }
        }
    }
    assert forall|p: (Seq<char>, Seq<char>)| #[trigger] model(t).contains_key(p) implies model(t)[p]
        == m[p] by {
        let j = choose|j: int| 0 <= j < t.len() && place(t[j]) == p;
        lemma_model_at(t, j);
        let j2 = if j < i { j } else { j + 1 };
        lemma_model_at(s, j2);
    }
    assert(model(t) =~= m);
}

/// The index of the slot at `(table, key)`, if there is one.
fn find(slots: &Vec<Slot>, table: &String, key: &String) -> (r: Option<usize>)
    ensures
        match r {
            Some(i) => i < slots@.len() && place(slots@[i as int]) == (table@, key@),
            None => forall|i: int|
                0 <= i < slots@.len() ==> place(#[trigger] slots@[i]) != (table@, key@),
        },
{
    let mut i: usize = 0;
    while i < slots.len()
        invariant
            i <= slots@.len(),
            forall|j: int| 0 <= j < i ==> place(#[trigger] slots@[j]) != (table@, key@),
        decreases slots@.len() - i,
    {
        let slot = &slots[i];
        if slot.table == *table && slot.key == *key {
            return Some(i);
        }
        i = i + 1;
    }
    None
}

/// A store that keeps every table in memory.
#[derive(Debug)]
pub struct MemTable {
    slots: Vec<Slot>,
}

impl MemTable {
    #[verifier::type_invariant]
    spec fn slots_distinct(self) -> bool {
        distinct(self.slots@)
    }

    /// An empty store.
    pub fn new() -> (r: Self)
        ensures
            r.contents() == StoreMap::empty(),
    {
        let r = MemTable { slots: Vec::new() };
        assert(model(r.slots@) =~= Map::empty());
        r
    }
}

impl Storage for MemTable {
    closed spec fn contents(&self) -> StoreMap {
        model(self.slots@)
    }

    /// A store in memory never reports an error.
    open spec fn never_fails() -> bool {
        true
    }

    open spec fn get_failure(&self, table: Seq<char>, key: Seq<char>) -> Option<ErrorData> {
        None
    }

    open spec fn set_failure(&self, table: Seq<char>, key: Seq<char>, value: Option<ValueData>) -> Option<
        ErrorData,
    > {
        None
    }

    open spec fn contains_failure(&self, table: Seq<char>, key: Seq<char>) -> Option<ErrorData> {
        None
    }

    open spec fn del_failure(&self, table: Seq<char>, key: Seq<char>) -> Option<ErrorData> {
        None
    }

    open spec fn get_all_failure(&self, table: Seq<char>) -> Option<ErrorData> {
        None
    }

    open spec fn get_iter_failure(&self, table: Seq<char>) -> Option<ErrorData> {
        None
    }

    fn get(&self, table: &str, key: &str) -> (r: Result<Option<Value>, KvError>) {
        proof {
            use_type_invariant(self);
        }
        let t = table.to_owned();
        let k = key.to_owned();
        match find(&self.slots, &t, &k) {
            Some(i) => {
                proof {
                    lemma_model_at(self.slots@, i as int);
                }
                Ok(Some(self.slots[i].value.clone()))
            },
            None => {
                proof {
                    lemma_model_absent(self.slots@, (table@, key@));
                }
                Ok(None)
            },
        }
    }

    fn set(&mut self, table: &str, key: String, value: Value) -> (r: Result<Option<Value>, KvError>) {
        proof {
            use_type_invariant(&*self);
        }
        let t = table.to_owned();
        let mut slots: Vec<Slot> = Vec::new();
        std::mem::swap(&mut slots, &mut self.slots);
        let ghost before = slots@;
        let prev = match find(&slots, &t, &key) {
            Some(i) => {
                let old_slot = slots.remove(i);
                let e = Slot { table: old_slot.table, key, value };
                proof {
                    lemma_model_at(before, i as int);
                    lemma_model_update(before, i as int, e);
                    assert(before.update(i as int, e) =~= before.remove(i as int).insert(
                        i as int,
                        e,
                    ));
                }
                slots.insert(i, e);
                Some(old_slot.value)
            },
            None => {
                proof {
                    lemma_model_absent(before, (table@, key@));
                }
                let e = Slot { table: t, key, value };
                proof {
                    lemma_model_push(before, e);
                }
                slots.push(e);
                None
            },
        };
        self.slots = slots;
        Ok(prev)
    }

    fn contains(&self, table: &str, key: &str) -> (r: Result<bool, KvError>) {
        proof {
            use_type_invariant(self);
        }
        let t = table.to_owned();
        let k = key.to_owned();
        match find(&self.slots, &t, &k) {
            Some(i) => {
                proof {
                    lemma_model_at(self.slots@, i as int);
                }
                Ok(true)
            },
            None => {
                proof {
                    lemma_model_absent(self.slots@, (table@, key@));
                }
                Ok(false)
            },
        }
    }

    fn del(&mut self, table: &str, key: &str) -> (r: Result<Option<Value>, KvError>) {
        proof {
            use_type_invariant(&*self);
        }
        let t = table.to_owned();
        let k = key.to_owned();
        let mut slots: Vec<Slot> = Vec::new();
        std::mem::swap(&mut slots, &mut self.slots);
        let ghost before = slots@;
        let prev = match find(&slots, &t, &k) {
            Some(i) => {
                proof {
                    lemma_model_at(before, i as int);
                    lemma_model_remove(before, i as int);
                }
                let old_slot = slots.remove(i);
                Some(old_slot.value)
            },
            None => {
                proof {
                    lemma_model_absent(before, (table@, key@));
                    assert(model(before).remove((table@, key@)) =~= model(before));
                }
                None
            },
        };
        self.slots = slots;
        Ok(prev)
    }

    fn get_all(&self, table: &str) -> (r: Result<Vec<Kvpair>, KvError>) {
        proof {
            use_type_invariant(self);
        }
        let t = table.to_owned();
        let mut pairs: Vec<Kvpair> = Vec::new();
        let mut i: usize = 0;
        while i < self.slots.len()
            invariant
                i <= self.slots@.len(),
                distinct(self.slots@),
                t@ == table@,
                forall|a: int|
                    #![trigger pairs@[a]]
                    0 <= a < pairs@.len() ==> exists|b: int|
                        0 <= b < i && (#[trigger] self.slots@[b]).table@ == table@ && pairs@[a]@
                            == (PairData {
                            key: self.slots@[b].key@,
                            value: Some(self.slots@[b].value@),
                        }),
                forall|b: int|
                    0 <= b < i && (#[trigger] self.slots@[b]).table@ == table@ ==> exists|a: int|
                        #![trigger pairs@[a]]
                        0 <= a < pairs@.len() && pairs@[a].key@ == self.slots@[b].key@,
                forall|a: int, c: int|
                    0 <= a < c < pairs@.len() ==> pairs@[a].key@ != pairs@[c].key@,
            decreases self.slots@.len() - i,
        {
            let slot = &self.slots[i];
            if slot.table == t {
                let pair = Kvpair::new(slot.key.as_str(), slot.value.clone());
                proof {
                    assert forall|a: int| 0 <= a < pairs@.len() implies pairs@[a].key@
                        != slot.key@ by {
                        let b = choose|b: int|
                            0 <= b < i && (#[trigger] self.slots@[b]).table@ == table@
                                && pairs@[a]@ == (PairData {
                                key: self.slots@[b].key@,
                                value: Some(self.slots@[b].value@),
                            });
                        assert(place(self.slots@[b]) != place(self.slots@[i as int]));
                    }
                }
                let ghost before = pairs@;
                pairs.push(pair);
                proof {
                    assert(pairs@[pairs@.len() - 1] == pair);
                    assert forall|b: int|
                        0 <= b < i + 1 && (#[trigger] self.slots@[b]).table@ == table@ implies exists|
                        a: int,
                    |
                        #![trigger pairs@[a]]
                        0 <= a < pairs@.len() && pairs@[a].key@ == self.slots@[b].key@ by {
                        if b == i {
                            assert(pairs@[pairs@.len() - 1].key@ == self.slots@[b].key@);
                        } else {
                            let a = choose|a: int|
                                #![trigger before[a]]
                                0 <= a < before.len() && before[a].key@ == self.slots@[b].key@;
                            assert(pairs@[a] == before[a]);
                        }
                    }
                }
            }
            i = i + 1;
        }
        proof {
            let ps = pairs@.map_values(|p: Kvpair| p@);
            let m = model(self.slots@);
            assert forall|a: int| 0 <= a < ps.len() implies (#[trigger] ps[a]).value is Some
                && ps[a].value == lookup(m, table@, ps[a].key) by {
                let b = choose|b: int|
                    0 <= b < i && (#[trigger] self.slots@[b]).table@ == table@ && pairs@[a]@
                        == (PairData {
                        key: self.slots@[b].key@,
                        value: Some(self.slots@[b].value@),
                    });
                lemma_model_at(self.slots@, b);
            }
            assert forall|k: Seq<char>| #[trigger] m.contains_key((table@, k)) implies exists|a: int|
                0 <= a < ps.len() && (#[trigger] ps[a]).key == k by {
                let b = choose|b: int| 0 <= b < self.slots@.len() && place(self.slots@[b]) == (table@, k);
                assert(self.slots@[b].table@ == table@);
                let a = choose|a: int| 0 <= a < pairs@.len() && pairs@[a].key@ == self.slots@[b].key@;
                assert(ps[a].key == k);
            }
            assert(lists_table(ps, m, table@));
        }
        Ok(pairs)
    }

    fn get_iter(&self, table: &str) -> (r: Result<std::vec::IntoIter<Kvpair>, KvError>) {
        broadcast use vstd::std_specs::vec::axiom_spec_into_iter;

        match self.get_all(table) {
            Ok(pairs) => {
                let it = pairs.into_iter();
                proof {
                    assert(vstd::std_specs::vec::into_iter_elts(it) == pairs@);
                }
                Ok(it)
            },
            Err(e) => Err(e),
        }
    }
}

} // verus!
