//! The set of RealmFS images known to the realm manager, by name.
use vstd::prelude::*;

use crate::realmfs::image::{MAX_REALMFS_NAME_LEN, is_valid_realmfs_name};
use crate::sort::{sort_in_order, sorted_in_order};
use crate::strmap::{StrMap, lemma_pairs_map_dom, pairs_map};
use crate::text::{ends_with, spec_ends_with, spec_trim_end_matches, trim_end_matches};
use crate::util::spec_is_valid_name;

verus! {

/// Suffix of a RealmFS image file name.
pub const IMAGE_SUFFIX: &'static str = "-realmfs.img";

/// The RealmFS name that an image file name gives: the file name less every
/// trailing `-realmfs.img`, when it ends so and that name is valid.
pub open spec fn spec_name_of_file(filename: Seq<char>) -> Option<Seq<char>> {
    let name = spec_trim_end_matches(filename, "-realmfs.img"@);
    if spec_ends_with(filename, "-realmfs.img"@) && spec_is_valid_name(name, MAX_REALMFS_NAME_LEN as nat) {
        Some(name)
    } else {
        None
    }
}

/// The RealmFS name that the file name `filename` in the image directory
/// gives, if any.
pub fn realmfs_name_of_file(filename: &str) -> (r: Option<String>)
    ensures
        match r {
            Some(n) => spec_name_of_file(filename@) == Some(n@),
            None => spec_name_of_file(filename@) is None,
        },
{
    proof {
        reveal_strlit("-realmfs.img");
    }
    if !ends_with(filename, IMAGE_SUFFIX) {
        return None;
    }
    let name = trim_end_matches(filename, IMAGE_SUFFIX);
    if is_valid_realmfs_name(name.as_str()) {
        Some(name)
    } else {
        None
    }
}

/// The RealmFS images known by name, each name once.
pub struct RealmFSSet<V> {
    map: StrMap<V>,
}

impl<V: DeepView> View for RealmFSSet<V> {
    type V = Map<Seq<char>, V::V>;

    closed spec fn view(&self) -> Map<Seq<char>, V::V> {
        self.map@
    }
}

impl<V: DeepView> RealmFSSet<V> {
    /// An empty set.
    pub fn new() -> (s: Self)
        ensures
            s@ == Map::<Seq<char>, V::V>::empty(),
    {
        RealmFSSet { map: StrMap::new() }
    }

    /// The image named `name`, if known.
    pub fn by_name(&self, name: &str) -> (r: Option<&V>)
        ensures
            match r {
                Some(v) => self@.contains_key(name@) && v.deep_view() == self@[name@],
                None => !self@.contains_key(name@),
            },
    {
        self.map.get(name)
    }

    /// Adds `realmfs` under `name`, unless an image of that name is known
    /// already, which then stays.
    pub fn add(&mut self, name: &str, realmfs: V)
        ensures
            old(self)@.contains_key(name@) ==> final(self)@ == old(self)@,
            !old(self)@.contains_key(name@) ==> final(self)@ == old(self)@.insert(
                name@,
                realmfs.deep_view(),
            ),
    {
        if !self.map.contains_key(name) {
            self.map.insert(crate::strmap::key(name), realmfs);
        }
    }

    /// Forgets the image named `name`, returning it if it was known.
    pub fn remove(&mut self, name: &str) -> (r: Option<V>)
        ensures
            final(self)@ == old(self)@.remove(name@),
            match r {
                Some(v) => old(self)@.contains_key(name@) && v.deep_view() == old(self)@[name@],
                None => !old(self)@.contains_key(name@),
            },
    {
        self.map.remove(name)
    }

    /// `true` if an image named `name` is known.
    pub fn name_exists(&self, name: &str) -> (r: bool)
        ensures
            r == self@.contains_key(name@),
    {
        self.map.contains_key(name)
    }

    /// The names of the known images, sorted.
    pub fn names(&self) -> (r: Vec<String>)
        ensures
            r@.len() == self@.len(),
            sorted_in_order(r@),
            forall|x: Seq<char>|
                self@.contains_key(x) <==> exists|k: int| 0 <= k < r@.len() && (#[trigger] r@[k])@ == x,
    {
        broadcast use vstd::seq_lib::group_to_multiset_ensures;

        let n = self.map.len();
        let keys = self.map.keys();
        let ghost ks = keys@;
        let sorted = sort_in_order(keys);
        proof {
            assert(sorted@.len() == ks.len()) by {
                assert(sorted@.to_multiset().len() == ks.to_multiset().len());
            }
            assert forall|x: Seq<char>|
                self@.contains_key(x) <==> exists|k: int|
                    0 <= k < sorted@.len() && (#[trigger] sorted@[k])@ == x by {
                lemma_pairs_map_dom(self.map.pairs(), x);
                if self@.contains_key(x) {
                    let i = choose|i: int| 0 <= i < self.map.pairs().len() && self.map.pairs()[i].0 == x;
                    assert(ks[i]@ == x);
                    assert(ks.contains(ks[i]));
                    assert(sorted@.to_multiset().count(ks[i]) > 0);
                    assert(sorted@.contains(ks[i]));
                    let k = choose|k: int| 0 <= k < sorted@.len() && sorted@[k] == ks[i];
                    assert(sorted@[k]@ == x);
                }
                if exists|k: int| 0 <= k < sorted@.len() && (#[trigger] sorted@[k])@ == x {
                    let k = choose|k: int| 0 <= k < sorted@.len() && (#[trigger] sorted@[k])@ == x;
                    assert(sorted@.contains(sorted@[k]));
                    assert(ks.to_multiset().count(sorted@[k]) > 0);
                    assert(ks.contains(sorted@[k]));
                    let i = choose|i: int| 0 <= i < ks.len() && ks[i] == sorted@[k];
                    assert(self.map.pairs()[i].0 == x);
                }
            }
        }
        sorted
    }
}

} // verus!
