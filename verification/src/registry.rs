//! A string-keyed association table with a `Map` view: the shared shape of
//! the bot's configuration registry and its price cache.
//!
//! Entries are held in a vector whose keys are pairwise distinct; the
//! abstract value is the finite map from key view (`Seq<char>`) to stored
//! value.

use vstd::prelude::*;

verus! {

/// The map denoted by a sequence of key/value entries: later entries win,
/// though under `distinct_keys` every key occurs at most once.
pub open spec fn entry_map<V>(s: Seq<(String, V)>) -> Map<Seq<char>, V>
    decreases s.len(),
{
    if s.len() == 0 {
        Map::empty()
    } else {
        entry_map(s.drop_last()).insert(s.last().0@, s.last().1)
    }
}

/// No two entries share a key.
pub open spec fn distinct_keys<V>(s: Seq<(String, V)>) -> bool {
    forall|i: int, j: int| 0 <= i < j < s.len() ==> s[i].0@ != s[j].0@
}

proof fn lemma_distinct_drop_last<V>(s: Seq<(String, V)>)
    requires
        distinct_keys(s),
        s.len() > 0,
    ensures
        distinct_keys(s.drop_last()),
{
    assert forall|i: int, j: int| 0 <= i < j < s.drop_last().len() implies s.drop_last()[i].0@
        != s.drop_last()[j].0@ by {
        assert(s.drop_last()[i] == s[i]);
        assert(s.drop_last()[j] == s[j]);
    }
}

/// The domain of `entry_map(s)` is exactly the set of key views occurring in `s`.
pub proof fn lemma_entry_map_domain<V>(s: Seq<(String, V)>, k: Seq<char>)
    ensures
        entry_map(s).contains_key(k) <==> (exists|i: int| 0 <= i < s.len() && s[i].0@ == k),
    decreases s.len(),
{
    if s.len() == 0 {
    } else {
        let dl = s.drop_last();
        lemma_entry_map_domain(dl, k);
        if s.last().0@ == k {
            assert(s[s.len() - 1].0@ == k);
        } else {
            if entry_map(s).contains_key(k) {
                let i = choose|i: int| 0 <= i < dl.len() && dl[i].0@ == k;
                assert(s[i].0@ == k);
            }
            if exists|i: int| 0 <= i < s.len() && s[i].0@ == k {
                let i = choose|i: int| 0 <= i < s.len() && s[i].0@ == k;
                assert(i < s.len() - 1);
                assert(dl[i].0@ == k);
            }
        }
    }
}

/// Under distinct keys, the map sends each entry's key to that entry's value.
pub proof fn lemma_entry_map_index<V>(s: Seq<(String, V)>, i: int)
    requires
        distinct_keys(s),
        0 <= i < s.len(),
    ensures
        entry_map(s).contains_key(s[i].0@),
        entry_map(s)[s[i].0@] == s[i].1,
    decreases s.len(),
{
    if i == s.len() - 1 {
    } else {
        lemma_distinct_drop_last(s);
        lemma_entry_map_index(s.drop_last(), i);
        assert(s.drop_last()[i] == s[i]);
        assert(s[i].0@ != s[s.len() - 1].0@);
    }
}

/// Replacing the entry at `i` by one with the same key view updates the map
/// at that key alone.
pub proof fn lemma_entry_map_update<V>(s: Seq<(String, V)>, i: int, e: (String, V))
    requires
        distinct_keys(s),
        0 <= i < s.len(),
        e.0@ == s[i].0@,
    ensures
        entry_map(s.update(i, e)) == entry_map(s).insert(e.0@, e.1),
        distinct_keys(s.update(i, e)),
    decreases s.len(),
{
    let u = s.update(i, e);
    assert forall|p: int| 0 <= p < s.len() implies u[p].0@ == s[p].0@ by {}
    assert(distinct_keys(u));
    if i == s.len() - 1 {
        assert(u.drop_last() =~= s.drop_last());
        assert(u.last() == e);
        assert(entry_map(u) =~= entry_map(s).insert(e.0@, e.1));
    } else {
        lemma_distinct_drop_last(s);
        assert(u.last() == s.last());
        assert(u.drop_last() =~= s.drop_last().update(i, e));
        assert(s.drop_last()[i] == s[i]);
        lemma_entry_map_update(s.drop_last(), i, e);
        assert(s[i].0@ != s[s.len() - 1].0@);
        assert(entry_map(u) == entry_map(s.drop_last()).insert(e.0@, e.1).insert(
            s.last().0@,
            s.last().1,
        ));
        assert(entry_map(u) =~= entry_map(s).insert(e.0@, e.1));
    }
}

/// Appending an entry whose key occurs nowhere in `s` inserts it into the map.
pub proof fn lemma_entry_map_push<V>(s: Seq<(String, V)>, e: (String, V))
    requires
        distinct_keys(s),
        forall|i: int| 0 <= i < s.len() ==> s[i].0@ != e.0@,
    ensures
        entry_map(s.push(e)) == entry_map(s).insert(e.0@, e.1),
        distinct_keys(s.push(e)),
{
    assert(s.push(e).drop_last() =~= s);
    assert(s.push(e).last() == e);
    assert forall|i: int, j: int| 0 <= i < j < s.push(e).len() implies s.push(e)[i].0@ != s.push(
        e,
    )[j].0@ by {
        if j < s.len() {
            assert(s.push(e)[i] == s[i]);
            assert(s.push(e)[j] == s[j]);
        } else {
            assert(s.push(e)[i] == s[i]);
            assert(s.push(e)[j] == e);
        }
    }
}

/// Removing the entry at `i` removes its key from the map.
pub proof fn lemma_entry_map_remove<V>(s: Seq<(String, V)>, i: int)
    requires
        distinct_keys(s),
        0 <= i < s.len(),
    ensures
        entry_map(s.remove(i)) == entry_map(s).remove(s[i].0@),
        distinct_keys(s.remove(i)),
    decreases s.len(),
{
    let r = s.remove(i);
    let k = s[i].0@;
    assert forall|p: int, q: int| 0 <= p < q < r.len() implies r[p].0@ != r[q].0@ by {
        let sp: int = if p < i {
            p
        } else {
            p + 1
        };
        let sq: int = if q < i {
            q
        } else {
            q + 1
        };
        assert(r[p] == s[sp]);
        assert(r[q] == s[sq]);
    }
    if i == s.len() - 1 {
        lemma_distinct_drop_last(s);
        assert(r =~= s.drop_last());
        lemma_entry_map_domain(s.drop_last(), k);
        assert(!entry_map(s.drop_last()).contains_key(k));
        assert(entry_map(s.drop_last()) =~= entry_map(s).remove(k));
    } else {
        lemma_distinct_drop_last(s);
        assert(r.last() == s.last());
        assert(r.drop_last() =~= s.drop_last().remove(i));
        assert(s.drop_last()[i] == s[i]);
        lemma_entry_map_remove(s.drop_last(), i);
        assert(entry_map(r) == entry_map(s.drop_last()).remove(k).insert(
            s.last().0@,
            s.last().1,
        ));
        assert(s[i].0@ != s[s.len() - 1].0@);
        assert(entry_map(r) =~= entry_map(s).remove(k));
    }
}

/// A string-keyed table of values with insert-or-replace, lookup and removal.
/// Its abstract value is a finite `Map` from key view to stored value.
pub struct Registry<V> {
    entries: Vec<(String, V)>,
}

impl<V> View for Registry<V> {
    type V = Map<Seq<char>, V>;

    closed spec fn view(&self) -> Map<Seq<char>, V> {
        entry_map(self.entries@)
    }
}

impl<V> Registry<V> {
    /// Structural invariant: stored keys are pairwise distinct.
    pub closed spec fn wf(&self) -> bool {
        distinct_keys(self.entries@)
    }

    /// The empty table.
    pub fn new() -> (r: Self)
        ensures
            r.wf(),
            r@ == Map::<Seq<char>, V>::empty(),
    {
        let entries: Vec<(String, V)> = Vec::new();
        proof {
            assert(entry_map(entries@) =~= Map::<Seq<char>, V>::empty());
        }
        Registry { entries }
    }

    /// Index of the entry holding `key`, if any.
    fn position(&self, key: &String) -> (r: Option<usize>)
        ensures
            match r {
                Some(i) => i < self.entries@.len() && self.entries@[i as int].0@ == key@,
                None => forall|i: int|
                    0 <= i < self.entries@.len() ==> self.entries@[i].0@ != key@,
            },
    {
        let n = self.entries.len();
        let mut i: usize = 0;
        while i < n
            invariant
                n == self.entries@.len(),
                i <= n,
                forall|j: int| 0 <= j < i ==> self.entries@[j].0@ != key@,
            decreases n - i,
        {
            if self.entries[i].0 == *key {
                return Some(i);
            }
            i += 1;
        }
        None
    }

    /// Number of stored entries.
    pub fn len(&self) -> (n: usize)
        requires
            self.wf(),
        ensures
            n == self@.dom().len(),
    {
        proof {
            lemma_entry_map_len(self.entries@);
        }
        self.entries.len()
    }

    /// Insert or fully replace: after the call the table maps `key` to
    /// `value` and every other key to what it held before.
    pub fn insert(&mut self, key: String, value: V)
        requires
            old(self).wf(),
        ensures
            final(self).wf(),
            final(self)@ == old(self)@.insert(key@, value),
    {
        match self.position(&key) {
            Some(i) => {
                proof {
                    lemma_entry_map_update(self.entries@, i as int, (key, value));
                }
                self.entries[i] = (key, value);
            },
            None => {
                proof {
                    lemma_entry_map_push(self.entries@, (key, value));
                }
                self.entries.push((key, value));
            },
        }
    }

    /// Lookup: returns the value stored under `key` exactly when the table
    /// holds that key.
    pub fn get<'a>(&'a self, key: &String) -> (r: Option<&'a V>)
        requires
            self.wf(),
        ensures
            match r {
                Some(v) => self@.contains_key(key@) && *v == self@[key@],
                None => !self@.contains_key(key@),
            },
    {
        match self.position(key) {
            Some(i) => {
                proof {
                    lemma_entry_map_index(self.entries@, i as int);
                }
                Some(&self.entries[i].1)
            },
            None => {
                proof {
                    lemma_entry_map_domain(self.entries@, key@);
                }
                None
            },
        }
    }

    /// Remove the entry stored under `key`, if any.
    pub fn remove(&mut self, key: &String)
        requires
            old(self).wf(),
        ensures
            final(self).wf(),
            final(self)@ == old(self)@.remove(key@),
    {
        match self.position(key) {
            Some(i) => {
                proof {
                    lemma_entry_map_remove(self.entries@, i as int);
                }
                self.entries.remove(i);
            },
            None => {
                proof {
                    lemma_entry_map_domain(self.entries@, key@);
                    assert(entry_map(self.entries@) =~= entry_map(self.entries@).remove(key@));
                }
            },
        }
    }

    /// A consistent snapshot of the whole table: the returned entries have
    /// distinct keys and denote exactly the table's map, so no caller ever
    /// observes a partially written entry.
    pub fn snapshot(&self) -> (r: &Vec<(String, V)>)
        requires
            self.wf(),
        ensures
            distinct_keys(r@),
            entry_map(r@) == self@,
    {
        &self.entries
    }
}

/// Under distinct keys the map has exactly one element per entry.
pub proof fn lemma_entry_map_len<V>(s: Seq<(String, V)>)
    requires
        distinct_keys(s),
    ensures
        entry_map(s).dom().len() == s.len(),
        entry_map(s).dom().finite(),
    decreases s.len(),
{
    if s.len() == 0 {
        assert(entry_map(s).dom() =~= Set::<Seq<char>>::empty());
    } else {
        let dl = s.drop_last();
        lemma_distinct_drop_last(s);
        lemma_entry_map_len(dl);
        lemma_entry_map_domain(dl, s.last().0@);
        assert(!entry_map(dl).contains_key(s.last().0@));
        assert(entry_map(s).dom() =~= entry_map(dl).dom().insert(s.last().0@));
        vstd::set::axiom_set_insert_len(entry_map(dl).dom(), s.last().0@);
    }
}

} // verus!
