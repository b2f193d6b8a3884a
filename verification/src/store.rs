//! Persistence store for scrape-result records: keyed save / get / delete
//! with insert-or-overwrite semantics, modelled as a map from keys to
//! values.

use vstd::prelude::*;

verus! {

/// A single persisted key/value unit: an application-chosen key and an
/// opaque serialized payload. Records are independent of one another.
#[derive(Debug)]
pub struct Record {
    pub key: String,
    pub value: String,
}

/// The answer to a lookup. Absence is a valid result, not an error, so it
/// is a variant of its own rather than an error type.
#[derive(Debug)]
pub enum GetResult {
    Found(Record),
    NotFound,
}

/// No two entries share a key.
pub open spec fn keys_distinct(s: Seq<Record>) -> bool {
    forall|i: int, j: int| 0 <= i < j < s.len() ==> s[i].key@ != s[j].key@
}

/// The mathematical contents of a sequence of records, read left to right
/// with later entries overwriting earlier ones.
pub open spec fn map_of(s: Seq<Record>) -> Map<Seq<char>, Seq<char>>
    decreases s.len(),
{
    if s.len() == 0 {
        Map::empty()
    } else {
        map_of(s.drop_last()).insert(s.last().key@, s.last().value@)
    }
}

proof fn lemma_keys_distinct_drop_last(s: Seq<Record>)
    requires
        keys_distinct(s),
        s.len() > 0,
    ensures
        keys_distinct(s.drop_last()),
{
    let t = s.drop_last();
    assert forall|i: int, j: int| 0 <= i < j < t.len() implies t[i].key@ != t[j].key@ by {
        assert(t[i] == s[i]);
        assert(t[j] == s[j]);
    }
}

/// A key is in the contents exactly when some entry carries it.
proof fn lemma_map_of_contains(s: Seq<Record>, k: Seq<char>)
    ensures
        map_of(s).contains_key(k) <==> (exists|i: int| 0 <= i < s.len() && s[i].key@ == k),
    decreases s.len(),
{
    if s.len() > 0 {
        let t = s.drop_last();
        lemma_map_of_contains(t, k);
        if s.last().key@ == k {
            assert(s[s.len() - 1].key@ == k);
        } else {
            if map_of(s).contains_key(k) {
                let i = choose|i: int| 0 <= i < t.len() && t[i].key@ == k;
                assert(s[i].key@ == k);
            }
            if exists|i: int| 0 <= i < s.len() && s[i].key@ == k {
                let i = choose|i: int| 0 <= i < s.len() && s[i].key@ == k;
                assert(t[i] == s[i]);
                assert(t[i].key@ == k);
            }
        }
    }
}

/// With distinct keys, the contents map each entry's key to that entry's
/// value.
proof fn lemma_map_of_index(s: Seq<Record>, i: int)
    requires
        keys_distinct(s),
        0 <= i < s.len(),
    ensures
        map_of(s).contains_key(s[i].key@),
        map_of(s)[s[i].key@] == s[i].value@,
    decreases s.len(),
{
    let t = s.drop_last();
    lemma_keys_distinct_drop_last(s);
    if i < s.len() - 1 {
        lemma_map_of_index(t, i);
        assert(t[i] == s[i]);
        assert(s.last().key@ != s[i].key@);
    }
}

/// Overwriting the entry that carries a key is, in contents, an insert at
/// that key.
proof fn lemma_map_of_update(s: Seq<Record>, i: int, r: Record)
    requires
        keys_distinct(s),
        0 <= i < s.len(),
        s[i].key@ == r.key@,
    ensures
        map_of(s.update(i, r)) == map_of(s).insert(r.key@, r.value@),
    decreases s.len(),
{
    let t = s.drop_last();
    let u = s.update(i, r);
    lemma_keys_distinct_drop_last(s);
    if i == s.len() - 1 {
        assert(u.drop_last() =~= t);
        assert(u.last() == r);
        assert(map_of(t).insert(r.key@, s.last().value@).insert(r.key@, r.value@) =~= map_of(
            t,
        ).insert(r.key@, r.value@));
    } else {
        assert(u.drop_last() =~= t.update(i, r));
        assert(u.last() == s.last());
        assert(t[i] == s[i]);
        lemma_map_of_update(t, i, r);
        assert(s.last().key@ != r.key@);
        assert(map_of(t).insert(r.key@, r.value@).insert(s.last().key@, s.last().value@) =~= map_of(
            t,
        ).insert(s.last().key@, s.last().value@).insert(r.key@, r.value@));
    }
}

/// Removing the entry that carries a key is, in contents, a removal of
/// that key.
proof fn lemma_map_of_remove(s: Seq<Record>, i: int)
    requires
        keys_distinct(s),
        0 <= i < s.len(),
    ensures
        map_of(s.remove(i)) == map_of(s).remove(s[i].key@),
    decreases s.len(),
{
    let t = s.drop_last();
    let u = s.remove(i);
    let k = s[i].key@;
    lemma_keys_distinct_drop_last(s);
    s.remove_ensures(i);
    if i == s.len() - 1 {
        assert(u =~= t);
        lemma_map_of_contains(t, k);
        assert forall|j: int| 0 <= j < t.len() implies t[j].key@ != k by {
            assert(t[j] == s[j]);
        }
        assert(!map_of(t).contains_key(k));
        assert(map_of(t).insert(k, s.last().value@).remove(k) =~= map_of(t));
    } else {
        assert(u.len() == s.len() - 1);
        assert(u.drop_last() =~= t.remove(i)) by {
            t.remove_ensures(i);
            assert forall|j: int| 0 <= j < s.len() - 2 implies u.drop_last()[j] == t.remove(i)[j]
            by {
                if j < i {
                    assert(u[j] == s[j]);
                    assert(t.remove(i)[j] == t[j]);
                    assert(t[j] == s[j]);
                } else {
                    assert(u[j] == s[j + 1]);
                    assert(t.remove(i)[j] == t[j + 1]);
                    assert(t[j + 1] == s[j + 1]);
                }
            }
        }
        assert(u.last() == s[s.len() - 1]);
        assert(t[i] == s[i]);
        lemma_map_of_remove(t, i);
        assert(s.last().key@ != k);
        assert(map_of(t).insert(s.last().key@, s.last().value@).remove(k) =~= map_of(t).remove(
            k,
        ).insert(s.last().key@, s.last().value@));
    }
}

/// In-memory key/value store with insert-or-overwrite saves, lookups, and
/// no-op deletes of absent keys. Its contents are the map [`map_of`] of
/// its entries.
pub struct Store {
    entries: Vec<Record>,
}

impl View for Store {
    type V = Map<Seq<char>, Seq<char>>;

    closed spec fn view(&self) -> Map<Seq<char>, Seq<char>> {
        map_of(self.entries@)
    }
}

impl Store {
    /// Well-formedness: no two entries share a key. Established by
    /// [`Store::new`] and preserved by every operation.
    pub closed spec fn wf(&self) -> bool {
        keys_distinct(self.entries@)
    }

    /// An empty store.
    pub fn new() -> (store: Store)
        ensures
            store.wf(),
            store@ == Map::<Seq<char>, Seq<char>>::empty(),
    {
        Store { entries: Vec::new() }
    }

    /// The index of the entry carrying `key`, if any.
    fn find_index(&self, key: &String) -> (r: Option<usize>)
        ensures
            (match r {
                Some(i) => i < self.entries@.len() && self.entries@[i as int].key@ == key@,
                None => forall|j: int| 0 <= j < self.entries@.len() ==> self.entries@[j].key@ != key@,
            }),
    {
        let mut i: usize = 0;
        while i < self.entries.len()
            invariant
                i <= self.entries@.len(),
                forall|j: int| 0 <= j < i ==> self.entries@[j].key@ != key@,
            decreases self.entries@.len() - i,
        {
            if self.entries[i].key == *key {
                return Some(i);
            }
            i += 1;
        }
        None
    }

    /// Inserts the record, overwriting any record already stored at its
    /// key: afterwards the contents are exactly the old contents with the
    /// record's key bound to its value.
    pub fn save(&mut self, record: Record)
        requires
            old(self).wf(),
        ensures
            final(self).wf(),
            final(self)@ == old(self)@.insert(record.key@, record.value@),
    {
        let ghost s = self.entries@;
        match self.find_index(&record.key) {
            Some(i) => {
                proof {
                    lemma_map_of_update(s, i as int, record);
                }
                self.entries[i] = record;
                proof {
                    assert forall|a: int, b: int|
                        0 <= a < b < self.entries@.len() implies self.entries@[a].key@
                        != self.entries@[b].key@ by {
                        assert(s[a].key@ != s[b].key@);
                    }
                }
            },
            None => {
                self.entries.push(record);
                proof {
                    assert(self.entries@.drop_last() =~= s);
                    assert forall|a: int, b: int|
                        0 <= a < b < self.entries@.len() implies self.entries@[a].key@
                        != self.entries@[b].key@ by {
                        if b < s.len() {
                            assert(s[a].key@ != s[b].key@);
                        } else {
                            assert(self.entries@[a] == s[a]);
                            assert(s[a].key@ != record.key@);
                        }
                    }
                }
            },
        }
    }

    /// Looks a key up. Returns the stored record (key and value both) when
    /// the key is bound, and `NotFound` exactly when it is not.
    pub fn get(&self, key: &String) -> (r: GetResult)
        requires
            self.wf(),
        ensures
            (match r {
                GetResult::Found(record) => self@.contains_key(key@) && record.key@ == key@
                    && record.value@ == self@[key@],
                GetResult::NotFound => !self@.contains_key(key@),
            }),
    {
        match self.find_index(key) {
            Some(i) => {
                proof {
                    lemma_map_of_index(self.entries@, i as int);
                }
                let entry = &self.entries[i];
                GetResult::Found(Record { key: entry.key.clone(), value: entry.value.clone() })
            },
            None => {
                proof {
                    lemma_map_of_contains(self.entries@, key@);
                }
                GetResult::NotFound
            },
        }
    }

    /// Removes the record at `key` if one is stored; deleting an absent
    /// key is a no-op, not an error. Either way the contents afterwards
    /// are exactly the old contents without that key.
    pub fn delete(&mut self, key: &String)
        requires
            old(self).wf(),
        ensures
            final(self).wf(),
            final(self)@ == old(self)@.remove(key@),
    {
        let ghost s = self.entries@;
        match self.find_index(key) {
            Some(i) => {
                proof {
                    lemma_map_of_remove(s, i as int);
                    s.remove_ensures(i as int);
                }
                self.entries.remove(i);
                proof {
                    assert forall|a: int, b: int|
                        0 <= a < b < self.entries@.len() implies self.entries@[a].key@
                        != self.entries@[b].key@ by {
                        if b < i as int {
                            assert(self.entries@[a] == s[a]);
                            assert(self.entries@[b] == s[b]);
                        } else if a < i as int {
                            assert(self.entries@[a] == s[a]);
                            assert(self.entries@[b] == s[b + 1]);
                        } else {
                            assert(self.entries@[a] == s[a + 1]);
                            assert(self.entries@[b] == s[b + 1]);
                        }
                    }
                }
            },
            None => {
                proof {
                    lemma_map_of_contains(s, key@);
                    assert(self@.remove(key@) =~= self@);
                }
            },
        }
    }
}

/// Law: saving a record and immediately looking its key up finds exactly
/// the value just saved, whatever the store held before.
pub proof fn lemma_save_then_get(contents: Map<Seq<char>, Seq<char>>, k: Seq<char>, v: Seq<char>)
    ensures
        contents.insert(k, v).contains_key(k),
        contents.insert(k, v)[k] == v,
{
}

/// Law: deleting a key and then looking it up reports absence, for any
/// key — including keys that were never saved.
pub proof fn lemma_delete_then_get(contents: Map<Seq<char>, Seq<char>>, k: Seq<char>)
    ensures
        !contents.remove(k).contains_key(k),
{
}

/// Law: deleting an absent key leaves the store's contents exactly as
/// they were (and delete has no error outcome at all).
pub proof fn lemma_delete_absent(contents: Map<Seq<char>, Seq<char>>, k: Seq<char>)
    requires
        !contents.contains_key(k),
    ensures
        contents.remove(k) == contents,
{
    assert(contents.remove(k) =~= contents);
}

/// Law: saving the same record twice yields the same contents as saving
/// it once — save is idempotent.
pub proof fn lemma_save_idempotent(contents: Map<Seq<char>, Seq<char>>, k: Seq<char>, v: Seq<char>)
    ensures
        contents.insert(k, v).insert(k, v) == contents.insert(k, v),
{
    assert(contents.insert(k, v).insert(k, v) =~= contents.insert(k, v));
}

} // verus!
