//! The sequential key-to-value map that each engine guards behind its
//! reader-writer lock.
//!
//! Keys are strings; the value type is any viewable type. The map is a
//! vector of entries with pairwise-distinct keys, and its view is the
//! mathematical map those entries denote.

use vstd::prelude::*;

verus! {

/// The map a sequence of entries denotes: a later entry wins over an
/// earlier one with the same key.
pub open spec fn entries_map<T: View>(s: Seq<(String, T)>) -> Map<Seq<char>, T::V>
    decreases s.len(),
{
    if s.len() == 0 {
        Map::empty()
    } else {
        entries_map(s.drop_last()).insert(s.last().0@, s.last().1@)
    }
}

/// No two entries share a key.
pub open spec fn keys_unique<T: View>(s: Seq<(String, T)>) -> bool {
    forall|i: int, j: int| 0 <= i < j < s.len() ==> s[i].0@ != s[j].0@
}

/// A key is in the denoted map exactly when some entry holds it.
proof fn lemma_entries_map_contains<T: View>(s: Seq<(String, T)>, k: Seq<char>)
    ensures
        entries_map(s).contains_key(k) <==> exists|i: int| 0 <= i < s.len() && s[i].0@ == k,
    decreases s.len(),
{
    if s.len() > 0 {
        lemma_entries_map_contains(s.drop_last(), k);
        if s.last().0@ == k {
            assert(s[s.len() - 1].0@ == k);
        } else {
            if entries_map(s).contains_key(k) {
                let i = choose|i: int| 0 <= i < s.drop_last().len() && s.drop_last()[i].0@ == k;
                assert(s[i].0@ == k);
            }
            if exists|i: int| 0 <= i < s.len() && s[i].0@ == k {
                let i = choose|i: int| 0 <= i < s.len() && s[i].0@ == k;
                assert(s.drop_last()[i].0@ == k);
            }
        }
    }
}

/// With distinct keys, the entry holding a key gives its value.
proof fn lemma_entries_map_index<T: View>(s: Seq<(String, T)>, i: int)
    requires
        keys_unique(s),
        0 <= i < s.len(),
    ensures
        entries_map(s).contains_key(s[i].0@),
        entries_map(s)[s[i].0@] == s[i].1@,
    decreases s.len(),
{
    if i < s.len() - 1 {
        assert(keys_unique(s.drop_last())) by {
            assert(forall|p: int, q: int|
                0 <= p < q < s.drop_last().len() ==> s.drop_last()[p].0@ != s.drop_last()[q].0@);
        }
        lemma_entries_map_index(s.drop_last(), i);
        assert(s[i].0@ != s.last().0@);
    }
}

/// Removing the entry that holds a key removes exactly that key from
/// the denoted map.
proof fn lemma_entries_map_remove<T: View>(s: Seq<(String, T)>, i: int)
    requires
        keys_unique(s),
        0 <= i < s.len(),
    ensures
        keys_unique(s.remove(i)),
        entries_map(s.remove(i)) == entries_map(s).remove(s[i].0@),
    decreases s.len(),
{
    let k = s[i].0@;
    if i == s.len() - 1 {
        assert(s.remove(i) =~= s.drop_last());
        lemma_entries_map_contains(s.drop_last(), k);
        assert(forall|j: int| 0 <= j < s.drop_last().len() ==> s.drop_last()[j].0@ != k);
        assert(!entries_map(s.drop_last()).contains_key(k));
        assert(entries_map(s.remove(i)) =~= entries_map(s).remove(k));
    } else {
        let t = s.drop_last();
        assert(keys_unique(t)) by {
            assert(forall|p: int, q: int| 0 <= p < q < t.len() ==> t[p].0@ != t[q].0@);
        }
        lemma_entries_map_remove(t, i);
        assert(s.remove(i).drop_last() =~= t.remove(i));
        assert(s.remove(i).last() == s.last());
        assert(keys_unique(s.remove(i))) by {
            assert(forall|p: int, q: int|
                0 <= p < q < s.remove(i).len() ==> s.remove(i)[p].0@ != s.remove(i)[q].0@);
        }
        assert(s.last().0@ != k);
        assert(entries_map(s.remove(i)) == entries_map(t.remove(i)).insert(s.last().0@, s.last().1@));
        assert(entries_map(s.remove(i)) =~= entries_map(s).remove(k));
    }
}

/// A sequential map from string key to value. Insertion overwrites any
/// prior value for the same key; there is no ordering guarantee among
/// keys. An engine guards one of these behind its lock.
pub struct StoreMap<T: View> {
    entries: Vec<(String, T)>,
}

impl<T: View> View for StoreMap<T> {
    type V = Map<Seq<char>, T::V>;

    closed spec fn view(&self) -> Map<Seq<char>, T::V> {
        entries_map(self.entries@)
    }
}

impl<T: View> StoreMap<T> {
    /// Well-formed: no two entries share a key. Constructors establish
    /// this and every operation preserves it.
    pub closed spec fn wf(&self) -> bool {
        keys_unique(self.entries@)
    }

    /// An empty store.
    pub fn new() -> (m: Self)
        ensures
            m.wf(),
            m@ == Map::<Seq<char>, T::V>::empty(),
    {
        StoreMap { entries: Vec::new() }
    }

    /// Index of the entry that holds `key`, if any.
    fn find(&self, key: &String) -> (r: Option<usize>)
        requires
            self.wf(),
        ensures
            match r {
                Some(i) => i < self.entries@.len() && self.entries@[i as int].0@ == key@,
                None => !self@.contains_key(key@),
            },
    {
        let n = self.entries.len();
        let mut i: usize = 0;
        while i < n
            invariant
                n == self.entries@.len(),
                i <= n,
                forall|j: int| 0 <= j < i ==> self.entries@[j].0@ != key@,
            decreases n - i,
        {
            if self.entries[i].0 == *key {
                return Some(i);
            }
            i += 1;
        }
        proof {
            lemma_entries_map_contains(self.entries@, key@);
        }
        None
    }

    /// Look up `key` without mutation: its value if present, `None`
    /// exactly when it is absent.
    pub fn get<'a>(&'a self, key: &String) -> (r: Option<&'a T>)
        requires
            self.wf(),
        ensures
            match r {
                Some(v) => self@.contains_key(key@) && v@ == self@[key@],
                None => !self@.contains_key(key@),
            },
    {
        match self.find(key) {
            Some(i) => {
                proof {
                    lemma_entries_map_index(self.entries@, i as int);
                }
                Some(&self.entries[i].1)
            },
            None => None,
        }
    }

    /// Insert or overwrite: afterwards the store maps `key` to `value`
    /// and every other key to what it held before.
    pub fn insert(&mut self, key: String, value: T)
        requires
            old(self).wf(),
        ensures
            final(self).wf(),
            final(self)@ == old(self)@.insert(key@, value@),
    {
        let ghost kview = key@;
        let _prev = self.remove(&key);
        let ghost cleared = self.entries@;
        self.entries.push((key, value));
        proof {
            lemma_entries_map_contains(cleared, kview);
            assert(forall|j: int| 0 <= j < cleared.len() ==> cleared[j].0@ != kview);
            assert(keys_unique(self.entries@));
            assert(self.entries@.drop_last() =~= cleared);
            assert(self@ =~= old(self)@.insert(kview, value@));
        }
    }

    /// Remove `key`: afterwards it is absent and every other key is
    /// untouched. Returns the value it held, `None` exactly when it was
    /// already absent.
    pub fn remove(&mut self, key: &String) -> (r: Option<T>)
        requires
            old(self).wf(),
        ensures
            final(self).wf(),
            final(self)@ == old(self)@.remove(key@),
            match r {
                Some(v) => old(self)@.contains_key(key@) && v@ == old(self)@[key@],
                None => !old(self)@.contains_key(key@),
            },
    {
        match self.find(key) {
            Some(i) => {
                proof {
                    lemma_entries_map_index(self.entries@, i as int);
                    lemma_entries_map_remove(self.entries@, i as int);
                }
                let pair = self.entries.remove(i);
                Some(pair.1)
            },
            None => {
                proof {
                    assert(self@ =~= old(self)@.remove(key@));
                }
                None
            },
        }
    }
}

} // verus!
