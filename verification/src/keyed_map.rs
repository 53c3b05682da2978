//! The maps in which the contract keeps its balances: entries in the order in
//! which their keys first came, no key twice.
use vstd::prelude::*;

verus! {

/// A key that can be told apart from others by its value.
pub trait AccountKey: View + Sized {
    /// Tells whether both keys have the same value.
    fn same_key(&self, other: &Self) -> (same: bool)
        ensures
            same == (self@ == other@),
    ;
}

/// No key occurs twice among the entries.
pub open spec fn distinct_keys<K: View, V>(s: Seq<(K, V)>) -> bool {
    forall|i: int, j: int| 0 <= i < j < s.len() ==> s[i].0@ != s[j].0@
}

/// The map that a list of entries stands for; where a key occurs twice, the
/// later entry counts.
pub open spec fn map_of<K: View, V>(s: Seq<(K, V)>) -> Map<K::V, V>
    decreases s.len(),
{
    if s.len() == 0 {
        Map::empty()
    } else {
        map_of(s.drop_last()).insert(s.last().0@, s.last().1)
    }
}

proof fn lemma_map_of_dom<K: View, V>(s: Seq<(K, V)>, k: K::V)
    ensures
        map_of(s).dom().contains(k) <==> exists|i: int| 0 <= i < s.len() && s[i].0@ == k,
    decreases s.len(),
{
    if s.len() > 0 {
        lemma_map_of_dom(s.drop_last(), k);
        if map_of(s).dom().contains(k) && s.last().0@ != k {
            let i = choose|i: int| 0 <= i < s.len() - 1 && s.drop_last()[i].0@ == k;
            assert(s[i].0@ == k);
        }
        if exists|i: int| 0 <= i < s.len() && s[i].0@ == k {
            let i = choose|i: int| 0 <= i < s.len() && s[i].0@ == k;
            if i < s.len() - 1 {
                assert(s.drop_last()[i].0@ == k);
            }
        }
    }
}

proof fn lemma_map_of_value<K: View, V>(s: Seq<(K, V)>, i: int)
    requires
        distinct_keys(s),
        0 <= i < s.len(),
    ensures
        map_of(s).dom().contains(s[i].0@),
        map_of(s)[s[i].0@] == s[i].1,
    decreases s.len(),
{
    if i < s.len() - 1 {
        lemma_map_of_value(s.drop_last(), i);
        assert(s.drop_last()[i] == s[i]);
    }
}

proof fn lemma_map_of_update<K: View, V>(s: Seq<(K, V)>, i: int, e: (K, V))
    requires
        distinct_keys(s),
        0 <= i < s.len(),
        e.0@ == s[i].0@,
    ensures
        map_of(s.update(i, e)) == map_of(s).insert(e.0@, e.1),
    decreases s.len(),
{
    let u = s.update(i, e);
    if i == s.len() - 1 {
        assert(u.drop_last() =~= s.drop_last());
        assert(map_of(u) =~= map_of(s).insert(e.0@, e.1));
    } else {
        assert(u.drop_last() =~= s.drop_last().update(i, e));
        lemma_map_of_update(s.drop_last(), i, e);
        assert(s.last().0@ != e.0@);
        assert(map_of(u) =~= map_of(s).insert(e.0@, e.1));
    }
}

proof fn lemma_map_of_push<K: View, V>(s: Seq<(K, V)>, e: (K, V))
    ensures
        map_of(s.push(e)) == map_of(s).insert(e.0@, e.1),
{
    assert(s.push(e).drop_last() =~= s);
}

/// A map from keys to values, kept as a list of entries.
pub struct KeyedMap<K: View, V> {
    entries: Vec<(K, V)>,
}

impl<K: AccountKey, V> View for KeyedMap<K, V> {
    type V = Map<K::V, V>;

    closed spec fn view(&self) -> Map<K::V, V> {
        map_of(self.entries@)
    }
}

impl<K: View, V> KeyedMap<K, V> {
    #[verifier::type_invariant]
    spec fn keys_are_distinct(self) -> bool {
        distinct_keys(self.entries@)
    }
}

impl<K: AccountKey, V> KeyedMap<K, V> {
    /// The keys in the order in which they first came.
    pub closed spec fn key_order(self) -> Seq<K::V> {
        self.entries@.map_values(|e: (K, V)| e.0@)
    }

    /// An empty map.
    pub fn new() -> (m: Self)
        ensures
            m@ == Map::<K::V, V>::empty(),
            m.key_order() == Seq::<K::V>::empty(),
    {
        let m = KeyedMap { entries: Vec::new() };
        assert(m.key_order() =~= Seq::<K::V>::empty());
        m
    }

    /// The entries, each key once, in the order in which the keys first came.
    pub fn entries(&self) -> (entries: &[(K, V)])
        ensures
            distinct_keys(entries@),
            map_of(entries@) == self@,
            entries@.map_values(|e: (K, V)| e.0@) == self.key_order(),
    {
        proof {
            use_type_invariant(self);
        }
        self.entries.as_slice()
    }

    /// The place of the key's entry, if it has one.
    fn find(&self, key: &K) -> (found: Option<usize>)
        ensures
            match found {
                Some(i) => i < self.entries@.len() && self.entries@[i as int].0@ == key@,
                None => forall|i: int|
                    0 <= i < self.entries@.len() ==> self.entries@[i].0@ != key@,
            },
    {
        let mut i: usize = 0;
        while i < self.entries.len()
            invariant
                i <= self.entries@.len(),
                forall|j: int| 0 <= j < i ==> self.entries@[j].0@ != key@,
            decreases self.entries@.len() - i,
        {
            if self.entries[i].0.same_key(key) {
                return Some(i);
            }
            i = i + 1;
        }
        None
    }

    /// Tells whether the key has a value.
    pub fn contains_key(&self, key: &K) -> (contains: bool)
        ensures
            contains == self@.dom().contains(key@),
    {
        let found = self.find(key);
        proof {
            lemma_map_of_dom(self.entries@, key@);
        }
        found.is_some()
    }

    /// The key's value, if it has one.
    pub fn get(&self, key: &K) -> (value: Option<&V>)
        ensures
            match value {
                Some(v) => self@.dom().contains(key@) && *v == self@[key@],
                None => !self@.dom().contains(key@),
            },
    {
        proof {
            use_type_invariant(self);
            lemma_map_of_dom(self.entries@, key@);
        }
        match self.find(key) {
            Some(i) => {
                proof {
                    lemma_map_of_value(self.entries@, i as int);
                }
                Some(&self.entries[i].1)
            },
            None => None,
        }
    }

    /// Gives the key the value; the value it had before, if any, is handed
    /// back. A key that was there keeps its place.
    pub fn insert(&mut self, key: K, value: V) -> (previous: Option<V>)
        ensures
            final(self)@ == old(self)@.insert(key@, value),
            final(self).key_order() == if old(self)@.dom().contains(key@) {
                old(self).key_order()
            } else {
                old(self).key_order().push(key@)
            },
            match previous {
                Some(v) => old(self)@.dom().contains(key@) && v == old(self)@[key@],
                None => !old(self)@.dom().contains(key@),
            },
    {
        proof {
            use_type_invariant(&*self);
            lemma_map_of_dom(self.entries@, key@);
        }
        match self.find(&key) {
            Some(i) => {
                let ghost s = self.entries@;
                let mut entry = (key, value);
                proof {
                    lemma_map_of_value(s, i as int);
                    lemma_map_of_update(s, i as int, entry);
                }
                let mut entries: Vec<(K, V)> = Vec::new();
                std::mem::swap(&mut entries, &mut self.entries);
                std::mem::swap(&mut entries[i], &mut entry);
                assert(entries@ == s.update(i as int, (key, value)));
                self.entries = entries;
                assert(self.key_order() =~= old(self).key_order());
                Some(entry.1)
            },
            None => {
                let ghost s = self.entries@;
                proof {
                    lemma_map_of_push(s, (key, value));
                }
                let mut entries: Vec<(K, V)> = Vec::new();
                std::mem::swap(&mut entries, &mut self.entries);
                entries.push((key, value));
                self.entries = entries;
                assert(self.key_order() =~= old(self).key_order().push(key@));
                None
            },
        }
    }
}

} // verus!
