//! A keyed collection that remembers the order in which its entries were put:
//! a linked hash map from keys to slots, and the slots that hold the values.

use crate::assoc::{
    distinct_keys, has_key, index_of, lemma_index_of, lemma_index_of_same_keys,
    lemma_index_of_unique, lemma_put_last_distinct, lemma_without_key, put_last, value_of,
    without_key,
};
use crate::linked::{
    linked_back, linked_entries, linked_get, linked_insert, linked_len, linked_new,
    linked_pop_back, linked_values,
};
use linked_hash_map::LinkedHashMap;
use vstd::prelude::*;

verus! {

/// Values under text keys, in the order in which they were last put.
#[derive(Debug)]
pub struct LinkedStore<T> {
    index: LinkedHashMap<String, usize>,
    slots: Vec<T>,
}

impl<T> LinkedStore<T> {
    /// The index maps distinct keys to slots in rising order, and the last slot belongs
    /// to the last entry.
    pub closed spec fn wf(&self) -> bool {
        let es = linked_entries(self.index);
        &&& distinct_keys(es)
        &&& forall|i: int, j: int| 0 <= i < j < es.len() ==> (#[trigger] es[i]).1 < (#[trigger] es[j]).1
        &&& if es.len() == 0 {
            self.slots@.len() == 0
        } else {
            es.last().1 + 1 == self.slots@.len()
        }
    }

    /// The entries, oldest first: each key with its value.
    pub closed spec fn entries(&self) -> Seq<(Seq<char>, T)> {
        let es = linked_entries(self.index);
        Seq::new(es.len(), |i: int| (es[i].0, self.slots@[es[i].1 as int]))
    }

    /// The keys of a well-formed store are distinct.
    pub proof fn lemma_distinct(&self)
        requires
            self.wf(),
        ensures
            distinct_keys(self.entries()),
    {
        let es = linked_entries(self.index);
        let en = self.entries();
        assert forall|i: int, j: int| 0 <= i < j < en.len() implies (#[trigger] en[i]).0 != (
        #[trigger] en[j]).0 by {
            assert(es[i].0 != es[j].0);
        }
    }

    proof fn lemma_slots_in_range(&self)
        requires
            self.wf(),
        ensures
            forall|i: int|
                0 <= i < linked_entries(self.index).len() ==> (#[trigger] linked_entries(
                    self.index,
                )[i]).1 < self.slots@.len(),
    {
        let es = linked_entries(self.index);
        assert forall|i: int| 0 <= i < es.len() implies (#[trigger] es[i]).1
            < self.slots@.len() by {
            if i < es.len() - 1 {
                assert(es[i].1 < es[es.len() - 1].1);
            }
        }
    }

    proof fn lemma_same_index(&self, k: Seq<char>)
        ensures
            index_of(self.entries(), k) == index_of(linked_entries(self.index), k),
    {
        lemma_index_of_same_keys(self.entries(), linked_entries(self.index), k);
    }

    /// An empty store.
    pub fn new() -> (r: Self)
        ensures
            r.wf(),
            r.entries() == Seq::<(Seq<char>, T)>::empty(),
    {
        let r = LinkedStore { index: linked_new(), slots: Vec::new() };
        assert(r.entries() =~= Seq::<(Seq<char>, T)>::empty());
        r
    }

    /// The number of entries.
    pub fn len(&self) -> (n: usize)
        ensures
            n == self.entries().len(),
    {
        linked_len(&self.index)
    }

    /// Whether an entry has the key.
    pub fn contains_key(&self, key: &str) -> (r: bool)
        ensures
            r == has_key(self.entries(), key@),
    {
        proof {
            self.lemma_same_index(key@);
        }
        linked_get(&self.index, key).is_some()
    }

    /// Puts the value under the key as the last entry. An entry that had the key is dropped.
    pub fn insert(&mut self, key: String, value: T)
        requires
            old(self).wf(),
        ensures
            final(self).wf(),
            final(self).entries() == put_last(old(self).entries(), key@, value),
    {
        let ghost es = linked_entries(self.index);
        let ghost en = self.entries();
        let idx = self.slots.len();
        self.slots.push(value);
        linked_insert(&mut self.index, key, idx);
        proof {
            let es2 = linked_entries(self.index);
            old(self).lemma_slots_in_range();
            old(self).lemma_distinct();
            old(self).lemma_same_index(key@);
            lemma_put_last_distinct(es, key@, idx);
            lemma_without_key(es, key@);
            lemma_without_key(en, key@);
            lemma_index_of(es, key@);
            let w = without_key(es, key@);
            assert forall|i: int, j: int| 0 <= i < j < es2.len() implies (#[trigger] es2[i]).1 < (
            #[trigger] es2[j]).1 by {
                match index_of(es, key@) {
                    Some(x) => {
                        let i2 = if i < x { i } else { i + 1 };
                        assert(es2[i] == es[i2]);
                        if j < w.len() {
                            let j2 = if j < x { j } else { j + 1 };
                            assert(es2[j] == es[j2]);
                        }
                    },
                    None => {
                        assert(es2[i] == es[i]);
                        if j < w.len() {
                            assert(es2[j] == es[j]);
                        }
                    },
                }
            }
            let target = put_last(en, key@, value);
            assert(self.entries().len() == target.len());
            assert forall|i: int| 0 <= i < target.len() implies #[trigger] self.entries()[i]
                == target[i] by {
                if i < w.len() {
                    match index_of(es, key@) {
                        Some(x) => {
                            let i2 = if i < x { i } else { i + 1 };
                            assert(es2[i] == es[i2]);
                            assert(target[i] == en[i2]);
                        },
                        None => {
                            assert(es2[i] == es[i]);
                            assert(target[i] == en[i]);
                        },
                    }
                }
            }
            assert(self.entries() =~= target);
        }
    }

    /// The value under the key, if any.
    pub fn get(&self, key: &str) -> (r: Option<&T>)
        requires
            self.wf(),
        ensures
            match r {
                Some(v) => value_of(self.entries(), key@) == Some(*v),
                None => value_of(self.entries(), key@) is None,
            },
    {
        proof {
            self.lemma_same_index(key@);
            self.lemma_slots_in_range();
            lemma_index_of(linked_entries(self.index), key@);
        }
        match linked_get(&self.index, key) {
            Some(idx) => Some(&self.slots[idx]),
            None => None,
        }
    }

    /// The value under a key that is present, for changing it in place.
    pub fn get_mut(&mut self, key: &str) -> (r: &mut T)
        requires
            old(self).wf(),
            has_key(old(self).entries(), key@),
        ensures
            Some(*r) == value_of(old(self).entries(), key@),
            final(self).wf(),
            final(self).entries() == old(self).entries().update(
                index_of(old(self).entries(), key@)->0,
                (key@, *final(r)),
            ),
    {
        proof {
            self.lemma_same_index(key@);
            self.lemma_slots_in_range();
            lemma_index_of(linked_entries(self.index), key@);
        }
        let idx = linked_get(&self.index, key).unwrap();
        let ghost es = linked_entries(self.index);
        let ghost pos = index_of(es, key@)->0;
        let ghost old_slots = self.slots@;
        let r = &mut self.slots[idx];
        proof {
            let new_slots = old_slots.update(idx as int, *final(r));
            let en = Seq::new(es.len(), |i: int| (es[i].0, new_slots[es[i].1 as int]));
            let target = old(self).entries().update(pos, (key@, *final(r)));
            assert forall|i: int| 0 <= i < es.len() implies #[trigger] en[i] == target[i] by {
                if i != pos {
                    if i < pos {
                        assert(es[i].1 < es[pos].1);
                    } else {
                        assert(es[pos].1 < es[i].1);
                    }
                }
            }
            assert(en =~= target);
        }
        r
    }

    /// The key of the last entry, if any.
    pub fn back_key(&self) -> (r: Option<String>)
        ensures
            match r {
                Some(k) => self.entries().len() > 0 && k@ == self.entries().last().0,
                None => self.entries().len() == 0,
            },
    {
        match linked_back(&self.index) {
            Some(e) => Some(e.0),
            None => None,
        }
    }

    /// The value of the last entry, if any.
    pub fn back(&self) -> (r: Option<&T>)
        requires
            self.wf(),
        ensures
            match r {
                Some(v) => self.entries().len() > 0 && *v == self.entries().last().1,
                None => self.entries().len() == 0,
            },
    {
        match linked_back(&self.index) {
            Some(e) => Some(&self.slots[e.1]),
            None => None,
        }
    }

    /// The value of the last entry of a store that is not empty, for changing it in place.
    pub fn back_mut(&mut self) -> (r: &mut T)
        requires
            old(self).wf(),
            old(self).entries().len() > 0,
        ensures
            *r == old(self).entries().last().1,
            final(self).wf(),
            final(self).entries() == old(self).entries().update(
                old(self).entries().len() - 1,
                (old(self).entries().last().0, *final(r)),
            ),
    {
        let e = linked_back(&self.index).unwrap();
        let ghost es = linked_entries(self.index);
        let ghost old_slots = self.slots@;
        let idx = e.1;
        let r = &mut self.slots[idx];
        proof {
            let pos = es.len() - 1;
            let new_slots = old_slots.update(idx as int, *final(r));
            let en = Seq::new(es.len(), |i: int| (es[i].0, new_slots[es[i].1 as int]));
            let target = old(self).entries().update(pos, (es[pos].0, *final(r)));
            assert forall|i: int| 0 <= i < es.len() implies #[trigger] en[i] == target[i] by {
                if i != pos {
                    assert(es[i].1 < es[pos].1);
                }
            }
            assert(en =~= target);
        }
        r
    }

    /// The values of all entries, oldest first.
    pub fn items(&self) -> (r: Vec<&T>)
        requires
            self.wf(),
        ensures
            r@.len() == self.entries().len(),
            forall|i: int| 0 <= i < r@.len() ==> *r@[i] == (#[trigger] self.entries()[i]).1,
    {
        let order = linked_values(&self.index);
        let mut out: Vec<&T> = Vec::new();
        let mut i: usize = 0;
        proof {
            self.lemma_slots_in_range();
        }
        while i < order.len()
            invariant
                i <= order@.len(),
                out@.len() == i,
                order@.len() == linked_entries(self.index).len(),
                forall|j: int|
                    0 <= j < order@.len() ==> order@[j] == (#[trigger] linked_entries(
                        self.index,
                    )[j]).1,
                forall|j: int|
                    0 <= j < linked_entries(self.index).len() ==> (#[trigger] linked_entries(
                        self.index,
                    )[j]).1 < self.slots@.len(),
                forall|j: int| 0 <= j < i ==> *out@[j] == (#[trigger] self.entries()[j]).1,
            decreases order@.len() - i,
        {
            assert(linked_entries(self.index)[i as int].1 < self.slots@.len());
            out.push(&self.slots[order[i]]);
            i += 1;
        }
        out
    }

    /// Drops the last entry, if there is one.
    pub fn pop_back(&mut self)
        requires
            old(self).wf(),
        ensures
            final(self).wf(),
            final(self).entries() == if old(self).entries().len() > 0 {
                old(self).entries().drop_last()
            } else {
                old(self).entries()
            },
    {
        let ghost es = linked_entries(self.index);
        let popped = linked_pop_back(&mut self.index);
        if popped.is_some() {
            let keep: usize = match linked_back(&self.index) {
                Some(e) => {
                    proof {
                        assert(es[es.len() - 2].1 < es[es.len() - 1].1);
                        assert(linked_entries(self.index).last() == es[es.len() - 2]);
                    }
                    e.1 + 1
                },
                None => 0,
            };
            self.slots.truncate(keep);
            proof {
                let es2 = linked_entries(self.index);
                assert forall|i: int, j: int| 0 <= i < j < es2.len() implies (#[trigger] es2[i]).0
                    != (#[trigger] es2[j]).0 && es2[i].1 < es2[j].1 by {
                    assert(es2[i] == es[i] && es2[j] == es[j]);
                }
                self.lemma_slots_in_range();
                assert forall|i: int| 0 <= i < es2.len() implies #[trigger] self.entries()[i]
                    == old(self).entries().drop_last()[i] by {
                    assert(es2[i] == es[i]);
                }
                assert(self.entries() =~= old(self).entries().drop_last());
            }
        } else {
            assert(self.entries() =~= old(self).entries());
        }
    }
}

} // verus!
