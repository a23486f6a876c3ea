//! The collection of realms: listing order, the choice of a default or
//! current realm, reading realm names back from paths, and the changes a
//! rescan of the realms directory finds.
use vstd::prelude::*;

use crate::error::Error;
use crate::path::{components, spec_components, spec_path_starts_with, path_starts_with};
use crate::realm::realm::{is_valid_realm_name, realm_le, RealmInfo, RealmInfoView, BASE_PATH, MAX_REALM_NAME_LEN, RUN_PATH};
use crate::sort::{lemma_multiset_map, sort_in_order, sorted_in_order};
use crate::text::{chars_of, spec_starts_with, starts_with, str_eq, string_from_range, strings_view};
use crate::util::spec_is_valid_name;

verus! {

/// The realms in listing order.
pub fn sorted(realms: Vec<RealmInfo>) -> (r: Vec<RealmInfo>)
    ensures
        r@.map_values(|x: RealmInfo| x@).to_multiset() == realms@.map_values(|x: RealmInfo| x@).to_multiset(),
        forall|i: int, j: int| 0 <= i < j < r@.len() ==> realm_le(#[trigger] r@[i]@, #[trigger] r@[j]@),
{
    let ghost orig = realms@;
    let r = sort_in_order(realms);
    proof {
        lemma_multiset_map(r@, orig, |x: RealmInfo| x@);
    }
    r
}

/// The running realms, leaving out system realms when `ignore_system` is set.
pub open spec fn is_listed_active(r: RealmInfoView, ignore_system: bool) -> bool {
    r.active && !(ignore_system && r.system)
}

/// The running realms, in order, leaving out system realms when
/// `ignore_system` is set.
pub fn active(realms: &Vec<RealmInfo>, ignore_system: bool) -> (r: Vec<RealmInfo>)
    ensures
        r@.map_values(|x: RealmInfo| x@) == realms@.map_values(|x: RealmInfo| x@).filter(
            |v: RealmInfoView| is_listed_active(v, ignore_system),
        ),
{
    let ghost all = realms@.map_values(|x: RealmInfo| x@);
    let ghost f = |v: RealmInfoView| is_listed_active(v, ignore_system);
    let mut out: Vec<RealmInfo> = Vec::new();
    let mut i: usize = 0;
    while i < realms.len()
        invariant
            i <= realms@.len(),
            all == realms@.map_values(|x: RealmInfo| x@),
            f == (|v: RealmInfoView| is_listed_active(v, ignore_system)),
            out@.map_values(|x: RealmInfo| x@) == all.take(i as int).filter(f),
        decreases realms@.len() - i,
    {
        let r = &realms[i];
        proof {
            assert(all.take(i + 1).drop_last() =~= all.take(i as int));
            assert(all.take(i + 1).last() == r@);
            reveal(Seq::filter);
            assert(all.take(i + 1).filter(f) == if f(r@) {
                all.take(i as int).filter(f).push(r@)
            } else {
                all.take(i as int).filter(f)
            });
        }
        if r.active && !(ignore_system && r.system) {
            let ghost before = out@;
            out.push(r.copy());
            assert(out@.map_values(|x: RealmInfo| x@) =~= before.map_values(|x: RealmInfo| x@).push(r@));
        }
        i += 1;
    }
    assert(all.take(realms@.len() as int) =~= all);
    out
}

/// The position of the first ordinary realm of a listing, that is also
/// running when `need_active` is set.
pub open spec fn first_choice(s: Seq<RealmInfoView>, need_active: bool) -> Option<int>
    decreases s.len(),
{
    if s.len() == 0 {
        None
    } else if (!need_active || s[0].active) && !s[0].system {
        Some(0)
    } else {
        match first_choice(s.drop_first(), need_active) {
            Some(i) => Some(i + 1),
            None => None,
        }
    }
}

/// The realm to make default when the default realm is removed: the
/// first ordinary realm of the listing.
pub fn choose_default(sorted: &Vec<RealmInfo>) -> (r: Option<usize>)
    ensures
        r matches Some(i) ==> first_choice(sorted@.map_values(|x: RealmInfo| x@), false) == Some(i as int),
        r is None ==> first_choice(sorted@.map_values(|x: RealmInfo| x@), false) is None,
{
    first_matching(sorted, false)
}

/// The realm to make current when none is: the first running ordinary
/// realm of the listing.
pub fn choose_current(sorted: &Vec<RealmInfo>) -> (r: Option<usize>)
    ensures
        r matches Some(i) ==> first_choice(sorted@.map_values(|x: RealmInfo| x@), true) == Some(i as int),
        r is None ==> first_choice(sorted@.map_values(|x: RealmInfo| x@), true) is None,
{
    first_matching(sorted, true)
}

/// The first ordinary realm, running too when `need_active` is set.
fn first_matching(sorted: &Vec<RealmInfo>, need_active: bool) -> (r: Option<usize>)
    ensures
        r matches Some(i) ==> first_choice(sorted@.map_values(|x: RealmInfo| x@), need_active) == Some(i as int),
        r is None ==> first_choice(sorted@.map_values(|x: RealmInfo| x@), need_active) is None,
{
    let ghost all = sorted@.map_values(|x: RealmInfo| x@);
    let mut i: usize = 0;
    assert(all.skip(0) =~= all);
    while i < sorted.len()
        invariant
            i <= sorted@.len(),
            all == sorted@.map_values(|x: RealmInfo| x@),
            first_choice(all, need_active) == match first_choice(all.skip(i as int), need_active) {
                Some(k) => Some(k + i),
                None => None,
            },
        decreases sorted@.len() - i,
    {
        assert(all.skip(i as int)[0] == sorted@[i as int]@);
        if (!need_active || sorted[i].active) && !sorted[i].system {
            return Some(i);
        }
        assert(all.skip(i as int).drop_first() =~= all.skip(i + 1));
        i += 1;
    }
    assert(all.skip(i as int) =~= Seq::<RealmInfoView>::empty());
    None
}

/// The realm a directory name `realm-<name>` stands for, when `<name>` is
/// a valid realm name.
pub open spec fn spec_dir_to_realm_name(d: Seq<char>) -> Option<Seq<char>> {
    if spec_starts_with(d, "realm-"@) && spec_is_valid_name(d.skip(6), MAX_REALM_NAME_LEN as nat) {
        Some(d.skip(6))
    } else {
        None
    }
}

/// The realm a directory name stands for.
pub fn dir_to_realm_name(d: &str) -> (r: Option<String>)
    ensures
        match spec_dir_to_realm_name(d@) {
            Some(n) => r matches Some(s) && s@ == n,
            None => r is None,
        },
{
    proof {
        reveal_strlit("realm-");
    }
    if starts_with(d, "realm-") {
        let v = chars_of(d);
        let name = string_from_range(&v, 6, v.len());
        assert(name@ =~= d@.skip(6));
        if is_valid_realm_name(name.as_str()) {
            return Some(name);
        }
    }
    None
}

/// The realm a path under the realms directory or the realms run
/// directory stands for: the path must be the directory of the realm.
pub open spec fn spec_path_to_realm_name(p: Seq<char>) -> Option<Seq<char>> {
    let c = spec_components(p);
    let rest = if spec_path_starts_with(p, BASE_PATH@) {
        Some(c.skip(spec_components(BASE_PATH@).len() as int))
    } else if spec_path_starts_with(p, RUN_PATH@) {
        Some(c.skip(spec_components(RUN_PATH@).len() as int))
    } else {
        None
    };
    match rest {
        Some(r) => if r.len() == 1 {
            spec_dir_to_realm_name(r[0])
        } else {
            None
        },
        None => None,
    }
}

/// The realm a path such as `/realms/realm-main` stands for.
pub fn path_to_realm_name(p: &str) -> (r: Option<String>)
    ensures
        match spec_path_to_realm_name(p@) {
            Some(n) => r matches Some(s) && s@ == n,
            None => r is None,
        },
{
    let c = components(p);
    let skip = if path_starts_with(p, BASE_PATH) {
        let b = components(BASE_PATH);
        assert(strings_view(b@).len() == b@.len());
        b.len()
    } else if path_starts_with(p, RUN_PATH) {
        let b = components(RUN_PATH);
        assert(strings_view(b@).len() == b@.len());
        b.len()
    } else {
        return None;
    };
    assert(strings_view(c@).len() == c@.len());
    if c.len() > skip && c.len() - skip == 1 {
        assert(strings_view(c@).skip(skip as int)[0] == c@[skip as int]@);
        dir_to_realm_name(c[skip].as_str())
    } else {
        None
    }
}

/// `s` holds no text twice.
pub open spec fn no_duplicates(s: Seq<Seq<char>>) -> bool {
    forall|i: int, j: int| 0 <= i < j < s.len() ==> s[i] != s[j]
}

/// Whether `v` holds `name`.
fn contains_name(v: &Vec<String>, name: &str) -> (r: bool)
    ensures
        r == strings_view(v@).contains(name@),
{
    let mut i: usize = 0;
    while i < v.len()
        invariant
            i <= v@.len(),
            forall|j: int| 0 <= j < i ==> strings_view(v@)[j] != name@,
        decreases v@.len() - i,
    {
        if str_eq(v[i].as_str(), name) {
            assert(strings_view(v@)[i as int] == name@);
            return true;
        }
        i += 1;
    }
    false
}

/// The names of `a` not in `b`, each once.
fn difference(a: &Vec<String>, b: &Vec<String>) -> (r: Vec<String>)
    ensures
        no_duplicates(strings_view(r@)),
        forall|n: Seq<char>| strings_view(r@).contains(n) <==> strings_view(a@).contains(n) && !strings_view(b@).contains(n),
{
    let mut out: Vec<String> = Vec::new();
    let mut i: usize = 0;
    while i < a.len()
        invariant
            i <= a@.len(),
            no_duplicates(strings_view(out@)),
            forall|n: Seq<char>| strings_view(out@).contains(n) <==> strings_view(a@).take(i as int).contains(n) && !strings_view(b@).contains(n),
        decreases a@.len() - i,
    {
        let ghost ai = strings_view(a@)[i as int];
        assert(a@[i as int]@ == ai);
        assert(strings_view(a@).take(i + 1) =~= strings_view(a@).take(i as int).push(ai));
        proof {
            lemma_push_contains(strings_view(a@).take(i as int), ai);
        }
        let in_b = contains_name(b, a[i].as_str());
        let in_out = contains_name(&out, a[i].as_str());
        let ghost before = strings_view(out@);
        if !in_b && !in_out {
            out.push(crate::text::to_owned_string(a[i].as_str()));
            assert(strings_view(out@) =~= before.push(ai));
        }
        proof {
            lemma_push_contains(before, ai);
            lemma_push_contains(strings_view(a@).take(i as int), ai);
            assert forall|n: Seq<char>| strings_view(out@).contains(n) <==> strings_view(a@).take(i + 1).contains(n)
                && !strings_view(b@).contains(n) by {
                assert(before.contains(n) <==> strings_view(a@).take(i as int).contains(n) && !strings_view(
                    b@,
                ).contains(n));
                assert(before.contains(ai) <==> strings_view(a@).take(i as int).contains(ai) && !strings_view(
                    b@,
                ).contains(ai));
                assert(strings_view(a@).take(i + 1).contains(n) <==> strings_view(a@).take(i as int).contains(n)
                    || n == ai);
                assert(before.push(ai).contains(n) <==> before.contains(n) || n == ai);
                if !in_b && !in_out {
                    assert(strings_view(out@) == before.push(ai));
                } else {
                    assert(strings_view(out@) == before);
                }
            }
            if !in_b && !in_out {
                assert forall|x: int, y: int| 0 <= x < y < strings_view(out@).len() implies strings_view(out@)[x]
                    != strings_view(out@)[y] by {
                    if y == before.len() {
                        assert(before[x] == strings_view(out@)[x]);
                        assert(before.contains(before[x]));
                    }
                }
            }
        }
        i += 1;
    }
    assert(strings_view(a@).take(a@.len() as int) =~= strings_view(a@));
    out
}

proof fn lemma_push_contains<A>(s: Seq<A>, x: A)
    ensures
        forall|n: A| s.push(x).contains(n) <==> s.contains(n) || n == x,
{
    assert forall|n: A| s.push(x).contains(n) <==> s.contains(n) || n == x by {
        if s.push(x).contains(n) {
            let j = choose|j: int| 0 <= j < s.push(x).len() && s.push(x)[j] == n;
            if j < s.len() {
                assert(s[j] == n);
            }
        }
        if s.contains(n) {
            let j = choose|j: int| 0 <= j < s.len() && s[j] == n;
            assert(s.push(x)[j] == n);
        }
        if n == x {
            assert(s.push(x)[s.len() as int] == n);
        }
    }
}

/// What a rescan of the realms directory finds, given the names known
/// before and the names found now: the names added and the names removed.
pub fn rescan_names(old_names: &Vec<String>, new_names: &Vec<String>) -> (r: (Vec<String>, Vec<String>))
    ensures
        no_duplicates(strings_view(r.0@)),
        no_duplicates(strings_view(r.1@)),
        forall|n: Seq<char>| strings_view(r.0@).contains(n) <==> strings_view(new_names@).contains(n) && !strings_view(old_names@).contains(n),
        forall|n: Seq<char>| strings_view(r.1@).contains(n) <==> strings_view(old_names@).contains(n) && !strings_view(new_names@).contains(n),
{
    let added = difference(new_names, old_names);
    let removed = difference(old_names, new_names);
    (added, removed)
}

/// Checks that a realm called `name` can be created next to the realms
/// `existing`: the name must be valid and not taken.
pub fn check_create(name: &str, existing: &Vec<String>) -> (r: Result<(), Error>)
    ensures
        !spec_is_valid_name(name@, MAX_REALM_NAME_LEN as nat) ==> r == Err::<(), Error>(Error::InvalidName),
        spec_is_valid_name(name@, MAX_REALM_NAME_LEN as nat) && strings_view(existing@).contains(name@) ==> r == Err::<(), Error>(Error::RealmExists),
        spec_is_valid_name(name@, MAX_REALM_NAME_LEN as nat) && !strings_view(existing@).contains(name@) ==> r is Ok,
{
    if !is_valid_realm_name(name) {
        Err(Error::InvalidName)
    } else if contains_name(existing, name) {
        Err(Error::RealmExists)
    } else {
        Ok(())
    }
}

/// Checks that a realm can be removed: it must exist and not be running.
pub fn check_delete(realm: Option<&RealmInfo>) -> (r: Result<(), Error>)
    ensures
        match realm {
            None => r == Err::<(), Error>(Error::NoSuchRealm),
            Some(x) => if x.active {
                r == Err::<(), Error>(Error::RealmActive)
            } else {
                r is Ok
            },
        },
{
    match realm {
        None => Err(Error::NoSuchRealm),
        Some(x) => if x.active {
            Err(Error::RealmActive)
        } else {
            Ok(())
        },
    }
}

/// Whether the current realm changed between two readings of its name.
pub fn current_changed(old: Option<&str>, new: Option<&str>) -> (r: bool)
    ensures
        r == (match old { Some(x) => Some(x@), None => None::<Seq<char>> } != match new { Some(x) => Some(x@), None => None::<Seq<char>> }),
{
    match (old, new) {
        (Some(a), Some(b)) => !str_eq(a, b),
        (None, None) => false,
        _ => true,
    }
}

/// Law: in a listing, every ordinary realm comes before every system realm.
pub proof fn law_ordinary_before_system(a: RealmInfoView, b: RealmInfoView)
    requires
        realm_le(a, b),
        a.system != b.system,
    ensures
        !a.system && b.system,
{
}

/// Law: among ordinary (or among system) realms, running ones come first.
pub proof fn law_running_first(a: RealmInfoView, b: RealmInfoView)
    requires
        realm_le(a, b),
        a.system == b.system,
        a.active != b.active,
    ensures
        a.active,
{
}

} // verus!
