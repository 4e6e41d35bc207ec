//! The order status store: a key-value table from identifier strings to the
//! most recently stored record, viewed in contracts as a mathematical map.
//! Keys are never removed; an insert under a present key overwrites.

use vstd::prelude::*;

verus! {

/// No two entries share a key.
pub open spec fn unique_keys<V>(s: Seq<(String, V)>) -> bool {
    forall|i: int, j: int| 0 <= i < j < s.len() ==> s[i].0@ != s[j].0@
}

/// The map an entry table denotes: later entries win, though under
/// `unique_keys` there is nothing to win over.
pub open spec fn map_of<V>(s: Seq<(String, V)>) -> Map<Seq<char>, V>
    decreases s.len(),
{
    if s.len() == 0 {
        Map::empty()
    } else {
        map_of(s.drop_last()).insert(s.last().0@, s.last().1)
    }
}

/// An entry's key is in the map, bound to its value, when keys are unique.
pub proof fn lemma_map_of_index<V>(s: Seq<(String, V)>, i: int)
    requires
        unique_keys(s),
        0 <= i < s.len(),
    ensures
        map_of(s).contains_key(s[i].0@),
        map_of(s)[s[i].0@] == s[i].1,
    decreases s.len(),
{
    if i < s.len() - 1 {
        assert(s[i].0@ != s.last().0@);
        lemma_map_of_index(s.drop_last(), i);
    }
}

/// A key under which no entry stands is not in the map.
pub proof fn lemma_map_of_absent<V>(s: Seq<(String, V)>, k: Seq<char>)
    requires
        forall|i: int| 0 <= i < s.len() ==> s[i].0@ != k,
    ensures
        !map_of(s).contains_key(k),
    decreases s.len(),
{
    if s.len() > 0 {
        lemma_map_of_absent(s.drop_last(), k);
    }
}

/// With unique keys, the map holds exactly one binding per entry.
pub proof fn lemma_map_of_len<V>(s: Seq<(String, V)>)
    requires
        unique_keys(s),
    ensures
        map_of(s).dom().finite(),
        map_of(s).len() == s.len(),
    decreases s.len(),
{
    if s.len() > 0 {
        lemma_map_of_len(s.drop_last());
        lemma_map_of_absent(s.drop_last(), s.last().0@);
    }
}

/// Overwriting the entry that holds a key updates exactly that binding.
proof fn lemma_map_of_update<V>(s: Seq<(String, V)>, i: int, p: (String, V))
    requires
        unique_keys(s),
        0 <= i < s.len(),
        s[i].0@ == p.0@,
    ensures
        map_of(s.update(i, p)) == map_of(s).insert(p.0@, p.1),
    decreases s.len(),
{
    if i == s.len() - 1 {
        assert(s.update(i, p).drop_last() =~= s.drop_last());
        assert(map_of(s.update(i, p)) =~= map_of(s).insert(p.0@, p.1));
    } else {
        assert(s.update(i, p).drop_last() =~= s.drop_last().update(i, p));
        lemma_map_of_update(s.drop_last(), i, p);
        assert(s[i].0@ != s.last().0@);
        assert(map_of(s.update(i, p)) =~= map_of(s).insert(p.0@, p.1));
    }
}

/// Appending an entry adds exactly its binding.
proof fn lemma_map_of_push<V>(s: Seq<(String, V)>, p: (String, V))
    ensures
        map_of(s.push(p)) == map_of(s).insert(p.0@, p.1),
{
    assert(s.push(p).drop_last() =~= s);
}

/// A key-value table from identifier strings to records. Its contracts speak
/// of `as_map`, the mathematical map it denotes.
pub struct StatusCache<V> {
    pub entries: Vec<(String, V)>,
}

impl<V> StatusCache<V> {
    /// The entries in insertion order, first insertion of each key deciding
    /// its place.
    pub open spec fn entries_seq(&self) -> Seq<(String, V)> {
        self.entries@
    }

    /// Well-formed: no key occurs twice.
    pub open spec fn wf(&self) -> bool {
        unique_keys(self.entries@)
    }

    /// The map this table denotes.
    pub open spec fn as_map(&self) -> Map<Seq<char>, V> {
        map_of(self.entries@)
    }

    /// An empty table.
    pub fn new() -> (r: Self)
        ensures
            r.wf(),
            r.as_map() == Map::<Seq<char>, V>::empty(),
            r.entries_seq() == Seq::<(String, V)>::empty(),
    {
        StatusCache { entries: Vec::new() }
    }

    /// How many identifiers have a record.
    pub fn len(&self) -> (r: usize)
        requires
            self.wf(),
        ensures
            r == self.as_map().len(),
            r == self.entries_seq().len(),
    {
        proof {
            lemma_map_of_len(self.entries@);
        }
        self.entries.len()
    }

    /// The record stored under an identifier, if any.
    pub fn get(&self, id: &str) -> (r: Option<&V>)
        requires
            self.wf(),
        ensures
            match r {
                Some(v) => self.as_map().contains_key(id@) && *v == self.as_map()[id@],
                None => !self.as_map().contains_key(id@),
            },
    {
        let key = id.to_owned();
        let n = self.entries.len();
        let mut i: usize = 0;
        while i < n
            invariant
                n == self.entries@.len(),
                0 <= i <= n,
                key@ == id@,
                self.wf(),
                forall|j: int| 0 <= j < i ==> self.entries@[j].0@ != id@,
            decreases n - i,
        {
            if self.entries[i].0 == key {
                proof {
                    lemma_map_of_index(self.entries@, i as int);
                }
                return Some(&self.entries[i].1);
            }
            i += 1;
        }
        proof {
            lemma_map_of_absent(self.entries@, id@);
        }
        None
    }

    /// Stores a record under an identifier, overwriting any record already
    /// there. Exactly the one binding changes.
    pub fn insert(&mut self, key: String, value: V)
        requires
            old(self).wf(),
        ensures
            final(self).wf(),
            final(self).as_map() == old(self).as_map().insert(key@, value),
    {
        let n = self.entries.len();
        let mut i: usize = 0;
        while i < n
            invariant
                n == self.entries@.len(),
                0 <= i <= n,
                self.wf(),
                self.entries@ == old(self).entries@,
                forall|j: int| 0 <= j < i ==> self.entries@[j].0@ != key@,
            decreases n - i,
        {
            if self.entries[i].0 == key {
                proof {
                    lemma_map_of_update(self.entries@, i as int, (key, value));
                }
                self.entries[i] = (key, value);
                return ;
            }
            i += 1;
        }
        proof {
            lemma_map_of_push(self.entries@, (key, value));
            assert forall|p: int, q: int|
                0 <= p < q < self.entries@.push((key, value)).len() implies self.entries@.push(
                (key, value),
            )[p].0@ != self.entries@.push((key, value))[q].0@ by {
                if q < self.entries@.len() {
                    assert(self.entries@[p].0@ != self.entries@[q].0@);
                }
            }
        }
        self.entries.push((key, value));
    }
}

} // verus!
