//! A small map from string keys to values, kept as a list of entries with
//! distinct keys. Its model is a `Map` from key characters to the deep view
//! of the value.
use vstd::prelude::*;

use crate::text::{str_eq, to_owned_string};

verus! {

/// The map denoted by a list of entries: later entries override earlier ones.
pub open spec fn entries_map<V: DeepView>(s: Seq<(String, V)>) -> Map<Seq<char>, V::V>
    decreases s.len(),
{
    if s.len() == 0 {
        Map::empty()
    } else {
        entries_map(s.drop_last()).insert(s.last().0@, s.last().1.deep_view())
    }
}

/// No key occurs twice in `s`.
pub open spec fn keys_unique<V>(s: Seq<(String, V)>) -> bool {
    forall|i: int, j: int| 0 <= i < j < s.len() ==> s[i].0@ != s[j].0@
}

proof fn lemma_entries_map_dom<V: DeepView>(s: Seq<(String, V)>, k: Seq<char>)
    ensures
        entries_map(s).contains_key(k) <==> exists|i: int| 0 <= i < s.len() && s[i].0@ == k,
    decreases s.len(),
{
    if s.len() > 0 {
        lemma_entries_map_dom(s.drop_last(), k);
        if entries_map(s.drop_last()).contains_key(k) {
            let i = choose|i: int| 0 <= i < s.drop_last().len() && s.drop_last()[i].0@ == k;
            assert(s[i].0@ == k);
        }
        if exists|i: int| 0 <= i < s.len() && s[i].0@ == k {
            let i = choose|i: int| 0 <= i < s.len() && s[i].0@ == k;
            if i < s.len() - 1 {
                assert(s.drop_last()[i].0@ == k);
            }
        }
    }
}

proof fn lemma_entries_map_index<V: DeepView>(s: Seq<(String, V)>, i: int)
    requires
        keys_unique(s),
        0 <= i < s.len(),
    ensures
        entries_map(s).contains_key(s[i].0@),
        entries_map(s)[s[i].0@] == s[i].1.deep_view(),
    decreases s.len(),
{
    if i < s.len() - 1 {
        lemma_entries_map_index(s.drop_last(), i);
        assert(s.drop_last()[i] == s[i]);
    }
}

/// The map denoted by a list of key and value pairs: later pairs override
/// earlier ones.
pub open spec fn pairs_map<W>(p: Seq<(Seq<char>, W)>) -> Map<Seq<char>, W>
    decreases p.len(),
{
    if p.len() == 0 {
        Map::empty()
    } else {
        pairs_map(p.drop_last()).insert(p.last().0, p.last().1)
    }
}

/// No key occurs twice in `p`.
pub open spec fn pairs_keys_unique<W>(p: Seq<(Seq<char>, W)>) -> bool {
    forall|i: int, j: int| 0 <= i < j < p.len() ==> p[i].0 != p[j].0
}

/// The model of an entry list as key and value pairs.
pub open spec fn entry_pairs<V: DeepView>(s: Seq<(String, V)>) -> Seq<(Seq<char>, V::V)> {
    s.map_values(|e: (String, V)| (e.0@, e.1.deep_view()))
}

proof fn lemma_entry_pairs_map<V: DeepView>(s: Seq<(String, V)>)
    ensures
        pairs_map(entry_pairs(s)) == entries_map(s),
    decreases s.len(),
{
    if s.len() > 0 {
        lemma_entry_pairs_map(s.drop_last());
        assert(entry_pairs(s).drop_last() =~= entry_pairs(s.drop_last()));
    }
}

/// A map from strings to values.
pub struct StrMap<V> {
    entries: Vec<(String, V)>,
}

impl<V: DeepView> View for StrMap<V> {
    type V = Map<Seq<char>, V::V>;

    closed spec fn view(&self) -> Map<Seq<char>, V::V> {
        entries_map(self.entries@)
    }
}

impl<V: DeepView> StrMap<V> {
    /// The entries of the map, in the order the map keeps them, as pairs of
    /// key and value model.
    pub closed spec fn pairs(&self) -> Seq<(Seq<char>, V::V)> {
        entry_pairs(self.entries@)
    }
}

impl<V> StrMap<V> {
    #[verifier::type_invariant]
    spec fn inv(self) -> bool {
        keys_unique(self.entries@)
    }
}

impl<V: DeepView> StrMap<V> {
    /// An empty map.
    pub fn new() -> (m: Self)
        ensures
            m@ == Map::<Seq<char>, V::V>::empty(),
    {
        StrMap { entries: Vec::new() }
    }

    /// Position of `key` among the entries.
    fn position(&self, key: &str) -> (r: Option<usize>)
        ensures
            match r {
                Some(i) => i < self.entries@.len() && self.entries@[i as int].0@ == key@,
                None => forall|i: int| 0 <= i < self.entries@.len() ==> self.entries@[i].0@ != key@,
            },
    {
        let mut i: usize = 0;
        while i < self.entries.len()
            invariant
                i <= self.entries@.len(),
                forall|j: int| 0 <= j < i ==> self.entries@[j].0@ != key@,
            decreases self.entries@.len() - i,
        {
            if str_eq(self.entries[i].0.as_str(), key) {
                return Some(i);
            }
            i += 1;
        }
        None
    }

    /// `true` when `key` has a value.
    pub fn contains_key(&self, key: &str) -> (r: bool)
        ensures
            r == self@.contains_key(key@),
    {
        proof {
            lemma_entries_map_dom(self.entries@, key@);
        }
        self.position(key).is_some()
    }

    /// The value of `key`, if any.
    pub fn get(&self, key: &str) -> (r: Option<&V>)
        ensures
            match r {
                Some(v) => self@.contains_key(key@) && v.deep_view() == self@[key@],
                None => !self@.contains_key(key@),
            },
    {
        proof {
            use_type_invariant(self);
            lemma_entries_map_dom(self.entries@, key@);
        }
        match self.position(key) {
            Some(i) => {
                proof {
                    lemma_entries_map_index(self.entries@, i as int);
                }
                Some(&self.entries[i].1)
            },
            None => None,
        }
    }

    /// Sets the value of `key` to `value`.
    pub fn insert(&mut self, key: String, value: V)
        ensures
            final(self)@ == old(self)@.insert(key@, value.deep_view()),
    {
        proof {
            use_type_invariant(&*self);
        }
        let ghost old_entries = self.entries@;
        let ghost k = key@;
        let ghost vv = value.deep_view();
        match self.position(key.as_str()) {
            Some(i) => {
                let mut entries: Vec<(String, V)> = Vec::new();
                std::mem::swap(&mut entries, &mut self.entries);
                entries.set(i, (key, value));
                let ghost new_entries = entries@;
                assert(new_entries == old_entries.update(i as int, (key, value)));
                assert(keys_unique(new_entries));
                proof {
                    assert forall|q: Seq<char>|
                        #[trigger] entries_map(new_entries).contains_key(q)
                            == entries_map(old_entries).insert(k, vv).contains_key(q) by {
                        lemma_entries_map_dom(new_entries, q);
                        lemma_entries_map_dom(old_entries, q);
                        assert(new_entries[i as int].0@ == k);
                        if exists|j: int| 0 <= j < old_entries.len() && old_entries[j].0@ == q {
                            let j = choose|j: int| 0 <= j < old_entries.len() && old_entries[j].0@ == q;
                            if j != i {
                                assert(new_entries[j].0@ == q);
                            }
                        }
                        if exists|j: int| 0 <= j < new_entries.len() && new_entries[j].0@ == q {
                            let j = choose|j: int| 0 <= j < new_entries.len() && new_entries[j].0@ == q;
                            if j != i {
                                assert(old_entries[j].0@ == q);
                            }
                        }
                    }
                    assert forall|q: Seq<char>|
                        #[trigger] entries_map(new_entries).contains_key(q) implies entries_map(
                            new_entries,
                        )[q] == entries_map(old_entries).insert(k, vv)[q] by {
                        lemma_entries_map_dom(new_entries, q);
                        let j = choose|j: int| 0 <= j < new_entries.len() && new_entries[j].0@ == q;
                        lemma_entries_map_index(new_entries, j);
                        if j != i {
                            lemma_entries_map_index(old_entries, j);
                        }
                    }
                    assert(entries_map(new_entries) =~= entries_map(old_entries).insert(k, vv));
                }
                self.entries = entries;
            },
            None => {
                let mut entries: Vec<(String, V)> = Vec::new();
                std::mem::swap(&mut entries, &mut self.entries);
                entries.push((key, value));
                assert(entries@.drop_last() =~= old_entries);
                self.entries = entries;
            },
        }
    }

    /// Removes `key` and returns its value, if it had one.
    pub fn remove(&mut self, key: &str) -> (r: Option<V>)
        ensures
            final(self)@ == old(self)@.remove(key@),
            match r {
                Some(v) => old(self)@.contains_key(key@) && v.deep_view() == old(self)@[key@],
                None => !old(self)@.contains_key(key@),
            },
    {
        proof {
            use_type_invariant(&*self);
            lemma_entries_map_dom(self.entries@, key@);
        }
        let ghost old_entries = self.entries@;
        let ghost k = key@;
        match self.position(key) {
            Some(i) => {
                proof {
                    lemma_entries_map_index(old_entries, i as int);
                }
                let mut entries: Vec<(String, V)> = Vec::new();
                std::mem::swap(&mut entries, &mut self.entries);
                let (_, v) = entries.remove(i);
                let ghost new_entries = entries@;
                assert(new_entries == old_entries.remove(i as int));
                assert(keys_unique(new_entries));
                proof {
                    assert forall|q: Seq<char>|
                        #[trigger] entries_map(new_entries).contains_key(q)
                            == entries_map(old_entries).remove(k).contains_key(q) by {
                        lemma_entries_map_dom(new_entries, q);
                        lemma_entries_map_dom(old_entries, q);
                        if exists|j: int| 0 <= j < old_entries.len() && old_entries[j].0@ == q {
                            let j = choose|j: int| 0 <= j < old_entries.len() && old_entries[j].0@ == q;
                            if j < i {
                                assert(new_entries[j].0@ == q);
                            } else if j > i {
                                assert(new_entries[j - 1].0@ == q);
                            }
                        }
                        if exists|j: int| 0 <= j < new_entries.len() && new_entries[j].0@ == q {
                            let j = choose|j: int| 0 <= j < new_entries.len() && new_entries[j].0@ == q;
                            if j < i {
                                assert(old_entries[j].0@ == q);
                            } else {
                                assert(old_entries[j + 1].0@ == q);
                            }
                        }
                    }
                    assert forall|q: Seq<char>|
                        #[trigger] entries_map(new_entries).contains_key(q) implies entries_map(
                            new_entries,
                        )[q] == entries_map(old_entries).remove(k)[q] by {
                        lemma_entries_map_dom(new_entries, q);
                        let j = choose|j: int| 0 <= j < new_entries.len() && new_entries[j].0@ == q;
                        lemma_entries_map_index(new_entries, j);
                        if j < i {
                            lemma_entries_map_index(old_entries, j);
                        } else {
                            lemma_entries_map_index(old_entries, j + 1);
                        }
                    }
                    assert(entries_map(new_entries) =~= entries_map(old_entries).remove(k));
                }
                self.entries = entries;
                Some(v)
            },
            None => {
                assert(entries_map(old_entries).remove(k) =~= entries_map(old_entries));
                None
            },
        }
    }

    /// Number of keys. The entries, in order, denote the map and have
    /// distinct keys.
    pub fn len(&self) -> (n: usize)
        ensures
            n == self@.len(),
            n == self.pairs().len(),
            pairs_map(self.pairs()) == self@,
            pairs_keys_unique(self.pairs()),
    {
        proof {
            use_type_invariant(self);
            self.lemma_len();
            lemma_entry_pairs_map(self.entries@);
        }
        self.entries.len()
    }

    /// The keys, in the order of the entries.
    pub fn keys(&self) -> (r: Vec<String>)
        ensures
            r@.len() == self.pairs().len(),
            forall|k: int| 0 <= k < r@.len() ==> (#[trigger] r@[k])@ == self.pairs()[k].0,
    {
        let n = self.len();
        let mut out: Vec<String> = Vec::new();
        let mut i: usize = 0;
        while i < n
            invariant
                n == self.pairs().len(),
                n == self@.len(),
                i <= n,
                out@.len() == i,
                forall|k: int| 0 <= k < i ==> (#[trigger] out@[k])@ == self.pairs()[k].0,
            decreases n - i,
        {
            let (key, _) = self.entry(i);
            out.push(to_owned_string(key.as_str()));
            i += 1;
        }
        out
    }

    proof fn lemma_len(&self)
        requires
            keys_unique(self.entries@),
        ensures
            self@.len() == self.entries@.len(),
            self@.dom().finite(),
    {
        lemma_entries_map_len(self.entries@);
    }

    /// The key of the `i`-th entry and its value, for iterating over the map.
    pub fn entry(&self, i: usize) -> (r: (&String, &V))
        requires
            i < self@.len(),
        ensures
            self@.contains_key(r.0@),
            self@[r.0@] == r.1.deep_view(),
            i < self.pairs().len(),
            self.pairs()[i as int] == (r.0@, r.1.deep_view()),
    {
        proof {
            use_type_invariant(self);
            self.lemma_len();
            lemma_entries_map_index(self.entries@, i as int);
        }
        let e = &self.entries[i];
        (&e.0, &e.1)
    }
}

proof fn lemma_entries_map_len<V: DeepView>(s: Seq<(String, V)>)
    requires
        keys_unique(s),
    ensures
        entries_map(s).dom().finite(),
        entries_map(s).len() == s.len(),
    decreases s.len(),
{
    if s.len() > 0 {
        let p = s.drop_last();
        lemma_entries_map_len(p);
        lemma_entries_map_dom(p, s.last().0@);
        if entries_map(p).contains_key(s.last().0@) {
            let j = choose|j: int| 0 <= j < p.len() && p[j].0@ == s.last().0@;
            assert(s[j].0@ == s[s.len() - 1].0@);
        }
    }
}

/// A key has a value in the map of `p` exactly when some pair has that key.
pub proof fn lemma_pairs_map_dom<W>(p: Seq<(Seq<char>, W)>, k: Seq<char>)
    ensures
        pairs_map(p).contains_key(k) <==> exists|i: int| 0 <= i < p.len() && p[i].0 == k,
    decreases p.len(),
{
    if p.len() > 0 {
        lemma_pairs_map_dom(p.drop_last(), k);
        if pairs_map(p.drop_last()).contains_key(k) {
            let i = choose|i: int| 0 <= i < p.drop_last().len() && p.drop_last()[i].0 == k;
            assert(p[i].0 == k);
        }
        if exists|i: int| 0 <= i < p.len() && p[i].0 == k {
            let i = choose|i: int| 0 <= i < p.len() && p[i].0 == k;
            if i < p.len() - 1 {
                assert(p.drop_last()[i].0 == k);
            }
        }
    }
}

/// Builds an owned key from a borrowed one.
pub fn key(s: &str) -> (r: String)
    ensures
        r@ == s@,
{
    to_owned_string(s)
}

} // verus!
