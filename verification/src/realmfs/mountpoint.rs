//! RealmFS activation mountpoints: directories named
//! `realmfs-$name-$tag.mountpoint` in the RealmFS run directory.
use vstd::prelude::*;

use crate::path::{
    extension_of, file_name, join, path_eq, path_starts_with, spec_extension_of, spec_file_name,
    spec_join, spec_path_starts_with,
};
use crate::path::{keep_piece, normal_pieces, spec_components};
use crate::text::{
    chars_of, chars_ends_with, lemma_split_push, push_str, spec_ends_with, spec_split,
    spec_starts_with, starts_with, str_eq, string_from_range, to_owned_string,
};

verus! {

/// Directory holding the activation mountpoints.
pub open spec fn run_directory() -> Seq<char> {
    "/run/citadel/realmfs"@
}

/// `s` with every trailing occurrence of a non-empty `suffix` removed.
pub open spec fn spec_trim_end_str(s: Seq<char>, suffix: Seq<char>) -> Seq<char>
    decreases s.len(),
{
    if suffix.len() > 0 && spec_ends_with(s, suffix) {
        spec_trim_end_str(s.take(s.len() - suffix.len()), suffix)
    } else {
        s
    }
}

/// The file name of a mountpoint path without its `.mountpoint` suffixes.
pub open spec fn spec_mp_filename(p: Seq<char>) -> Option<Seq<char>> {
    match spec_file_name(p) {
        Some(n) => Some(spec_trim_end_str(n, ".mountpoint"@)),
        None => None,
    }
}

/// Position of the last `'-'` in `s`.
pub open spec fn last_dash(s: Seq<char>) -> Option<int>
    decreases s.len(),
{
    if s.len() == 0 {
        None
    } else if s.last() == '-' {
        Some(s.len() - 1)
    } else {
        last_dash(s.drop_last())
    }
}

/// The RealmFS name and the tag in a mountpoint file name
/// `realmfs-$name-$tag`: the name runs from the `realmfs-` prefix to the
/// last `'-'`, and the tag follows that `'-'`, so a name may itself hold
/// `'-'`.
pub open spec fn spec_stem_parts(stem: Seq<char>) -> Option<(Seq<char>, Seq<char>)> {
    if spec_starts_with(stem, "realmfs-"@) && last_dash(stem) is Some && last_dash(stem).unwrap()
        >= 8 {
        let k = last_dash(stem).unwrap();
        Some((stem.subrange(8, k), stem.skip(k + 1)))
    } else {
        None
    }
}

/// The RealmFS name and tag of a mountpoint path.
pub open spec fn spec_mp_parts(p: Seq<char>) -> Option<(Seq<char>, Seq<char>)> {
    match spec_mp_filename(p) {
        Some(n) => spec_stem_parts(n),
        None => None,
    }
}

/// The file name of the mountpoint has the structure `realmfs-$name-$tag`.
pub open spec fn has_parts(p: Seq<char>) -> bool {
    spec_mp_parts(p) is Some
}

/// The RealmFS name of a mountpoint path that has the expected structure.
pub open spec fn spec_mp_realmfs(p: Seq<char>) -> Seq<char> {
    spec_mp_parts(p).unwrap().0
}

/// The tag of a mountpoint path that has the expected structure.
pub open spec fn spec_mp_tag(p: Seq<char>) -> Seq<char> {
    spec_mp_parts(p).unwrap().1
}

/// The extension of the file name of `p` is `mountpoint`.
pub open spec fn spec_mp_extension_ok(p: Seq<char>) -> bool {
    match spec_file_name(p) {
        Some(n) => spec_extension_of(n) == Some("mountpoint"@),
        None => false,
    }
}

/// `p` lies in the run directory, has the `.mountpoint` extension and a file
/// name of the structure `realmfs-$name-$tag`.
pub open spec fn spec_mp_valid(p: Seq<char>) -> bool {
    spec_path_starts_with(p, run_directory()) && spec_mp_extension_ok(p) && has_parts(p)
}

/// The parts of a mountpoint file name, as `spec_stem_parts` gives them.
fn stem_parts(stem: &str) -> (r: Option<(String, String)>)
    ensures
        match r {
            Some((a, b)) => spec_stem_parts(stem@) == Some((a@, b@)),
            None => spec_stem_parts(stem@) is None,
        },
{
    if !starts_with(stem, "realmfs-") {
        return None;
    }
    proof {
        reveal_strlit("realmfs-");
    }
    let v = chars_of(stem);
    let mut i = v.len();
    assert(v@.take(i as int) =~= v@);
    while i > 0 && v[i - 1] != '-'
        invariant
            i <= v@.len(),
            last_dash(v@) == last_dash(v@.take(i as int)),
        decreases i,
    {
        assert(v@.take(i as int).drop_last() =~= v@.take(i - 1));
        i -= 1;
    }
    if i == 0 {
        assert(v@.take(0) =~= Seq::<char>::empty());
        return None;
    }
    let k = i - 1;
    assert(last_dash(v@) == Some(k as int));
    if k < 8 {
        return None;
    }
    let name = string_from_range(&v, 8, k);
    let tag = string_from_range(&v, k + 1, v.len());
    assert(v@.skip(k + 1) =~= v@.subrange(k + 1, v@.len() as int));
    Some((name, tag))
}

/// The path of the mountpoint for RealmFS `name` with `tag`.
pub open spec fn spec_mountpoint_path(name: Seq<char>, tag: Seq<char>) -> Seq<char> {
    spec_join(run_directory(), "realmfs-"@ + name + "-"@ + tag + ".mountpoint"@)
}

/// A RealmFS activation mountpoint.
#[derive(Debug)]
pub struct Mountpoint(String);

impl View for Mountpoint {
    type V = Seq<char>;

    closed spec fn view(&self) -> Seq<char> {
        self.0@
    }
}

/// `s` with every trailing `suffix` removed.
fn trim_end_str(s: &str, suffix: &str) -> (r: String)
    requires
        suffix@.len() > 0,
    ensures
        r@ == spec_trim_end_str(s@, suffix@),
{
    let v = chars_of(s);
    let suf = chars_of(suffix);
    let mut end = v.len();
    let mut cur = string_from_range(&v, 0, end);
    assert(v@.subrange(0, end as int) =~= v@);
    loop
        invariant
            end <= v@.len(),
            suf@ == suffix@,
            suf@.len() > 0,
            cur@ == v@.subrange(0, end as int),
            spec_trim_end_str(s@, suffix@) == spec_trim_end_str(cur@, suffix@),
            v@ == s@,
        decreases end,
    {
        let cv = chars_of(cur.as_str());
        if !chars_ends_with(&cv, &suf) {
            return cur;
        }
        end = end - suf.len();
        assert(cur@.take(cur@.len() - suffix@.len()) =~= v@.subrange(0, end as int));
        cur = string_from_range(&v, 0, end);
    }
}

impl Mountpoint {
    /// Directory holding the activation mountpoints.
    pub const RUN_DIRECTORY: &'static str = "/run/citadel/realmfs";

    /// The mountpoint at `path`.
    pub fn from_path(path: &str) -> (m: Mountpoint)
        ensures
            m@ == path@,
    {
        Mountpoint(to_owned_string(path))
    }

    /// A read-only / read-write mountpoint pair for the RealmFS `realmfs`.
    pub fn new_loop_pair(realmfs: &str) -> (r: (Mountpoint, Mountpoint))
        ensures
            r.0@ == spec_mountpoint_path(realmfs@, "ro"@),
            r.1@ == spec_mountpoint_path(realmfs@, "rw"@),
    {
        let ro = Self::new(realmfs, "ro");
        let rw = Self::new(realmfs, "rw");
        (ro, rw)
    }

    /// The mountpoint for RealmFS `name` and `tag`: the directory
    /// `realmfs-$name-$tag.mountpoint` in the run directory.
    pub fn new(name: &str, tag: &str) -> (m: Mountpoint)
        ensures
            m@ == spec_mountpoint_path(name@, tag@),
    {
        let mut filename = to_owned_string("realmfs-");
        push_str(&mut filename, name);
        push_str(&mut filename, "-");
        push_str(&mut filename, tag);
        push_str(&mut filename, ".mountpoint");
        Mountpoint(join(Self::RUN_DIRECTORY, filename.as_str()))
    }

    /// Full path of the mountpoint.
    pub fn path(&self) -> (r: &str)
        ensures
            r@ == self@,
    {
        self.0.as_str()
    }

    /// Name of the RealmFS: the text of the file name between the
    /// `realmfs-` prefix and the last `'-'`.
    pub fn realmfs(&self) -> (r: String)
        requires
            has_parts(self@),
        ensures
            r@ == spec_mp_realmfs(self@),
    {
        match Self::parts(self.0.as_str()) {
            Some((name, _)) => name,
            None => vstd::pervasive::unreached(),
        }
    }

    /// Tag: the text of the file name after the last `'-'`.
    pub fn tag(&self) -> (r: String)
        requires
            has_parts(self@),
        ensures
            r@ == spec_mp_tag(self@),
    {
        match Self::parts(self.0.as_str()) {
            Some((_, tag)) => tag,
            None => vstd::pervasive::unreached(),
        }
    }

    /// `true` if this mountpoint lies in the run directory, has the
    /// `.mountpoint` extension and a file name of the structure
    /// `realmfs-$name-$tag`.
    pub fn is_valid(&self) -> (r: bool)
        ensures
            r == spec_mp_valid(self@),
    {
        if !path_starts_with(self.0.as_str(), Self::RUN_DIRECTORY) {
            return false;
        }
        if !self.has_valid_extension() {
            return false;
        }
        Self::parts(self.0.as_str()).is_some()
    }

    /// The mountpoint lies in the run directory, has the `.mountpoint`
    /// extension and a file name of the structure `realmfs-$name-$tag`.
    pub open spec fn spec_is_valid(&self) -> bool {
        spec_mp_valid(self@)
    }

    fn has_valid_extension(&self) -> (r: bool)
        ensures
            r == spec_mp_extension_ok(self@),
    {
        match file_name(self.0.as_str()) {
            Some(n) => match extension_of(n.as_str()) {
                Some(e) => str_eq(e.as_str(), "mountpoint"),
                None => false,
            },
            None => false,
        }
    }

    fn parts(path: &str) -> (r: Option<(String, String)>)
        ensures
            match r {
                Some((a, b)) => spec_mp_parts(path@) == Some((a@, b@)),
                None => spec_mp_parts(path@) is None,
            },
    {
        match Self::filename(path) {
            Some(n) => stem_parts(n.as_str()),
            None => None,
        }
    }

    fn filename(path: &str) -> (r: Option<String>)
        ensures
            match r {
                Some(n) => spec_mp_filename(path@) == Some(n@),
                None => spec_mp_filename(path@) is None,
            },
    {
        proof {
            reveal_strlit(".mountpoint");
        }
        match file_name(path) {
            Some(n) => Some(trim_end_str(n.as_str(), ".mountpoint")),
            None => None,
        }
    }

    /// `true` when both name the same path (component by component).
    pub fn same(&self, other: &Mountpoint) -> (r: bool)
        ensures
            r == crate::path::spec_path_eq(self@, other@),
    {
        path_eq(self.0.as_str(), other.0.as_str())
    }

    /// A copy of this mountpoint.
    pub fn copy(&self) -> (r: Mountpoint)
        ensures
            r@ == self@,
    {
        Mountpoint(self.0.clone())
    }
}

/// The file name of the mountpoint of RealmFS `name` with `tag`, without
/// its `.mountpoint` suffix.
pub open spec fn mp_stem(name: Seq<char>, tag: Seq<char>) -> Seq<char> {
    "realmfs-"@ + name + seq!['-'] + tag
}

proof fn lemma_last_dash_tail(pre: Seq<char>, tag: Seq<char>)
    requires
        !tag.contains('-'),
    ensures
        last_dash(pre.push('-') + tag) == Some(pre.len() as int),
    decreases tag.len(),
{
    let s = pre.push('-') + tag;
    if tag.len() == 0 {
        assert(s =~= pre.push('-'));
    } else {
        assert(tag.last() != '-') by {
            if tag.last() == '-' {
                assert(tag.contains('-'));
            }
        }
        assert(!tag.drop_last().contains('-')) by {
            if tag.drop_last().contains('-') {
                let i = choose|i: int| 0 <= i < tag.drop_last().len() && tag.drop_last()[i] == '-';
                assert(tag[i] == '-');
            }
        }
        assert(s.drop_last() =~= pre.push('-') + tag.drop_last());
        lemma_last_dash_tail(pre, tag.drop_last());
    }
}

/// Law: the mountpoint made for RealmFS `name` with `tag` is valid, and
/// `realmfs()` and `tag()` give back `name` and `tag`, whatever `'-'` the
/// name holds. It needs a name and a tag without `/` (every valid RealmFS
/// name is such), a tag without `-`, and a file name that does not itself
/// end in `.mountpoint` before the suffix is added.
pub proof fn law_mountpoint_fields(name: Seq<char>, tag: Seq<char>)
    requires
        !name.contains('/'),
        !tag.contains('-'),
        !tag.contains('/'),
        !spec_ends_with(mp_stem(name, tag), ".mountpoint"@),
    ensures
        spec_mp_parts(spec_mountpoint_path(name, tag)) == Some((name, tag)),
        spec_mp_valid(spec_mountpoint_path(name, tag)),
{
    reveal_strlit("realmfs-");
    reveal_strlit("-");
    reveal_strlit(".mountpoint");
    reveal_strlit("mountpoint");
    reveal_strlit("/run/citadel/realmfs");
    let stem = mp_stem(name, tag);
    let f = "realmfs-"@ + name + "-"@ + tag + ".mountpoint"@;
    assert(f =~= stem + ".mountpoint"@);
    let dir = run_directory();
    assert(!f.contains('/')) by {
        if f.contains('/') {
            let i = choose|i: int| 0 <= i < f.len() && f[i] == '/';
            if 8 <= i < 8 + name.len() {
                assert(name[i - 8] == '/');
            } else if 9 + name.len() <= i < 9 + name.len() + tag.len() {
                assert(tag[i - 9 - name.len()] == '/');
            }
        }
    }
    assert(!spec_ends_with(dir, seq!['/'])) by {
        assert(dir.len() == 20);
        assert(dir[19] == 's');
        if spec_ends_with(dir, seq!['/']) {
            assert(dir.subrange(19, 20)[0] == dir[19]);
        }
    }
    let p = spec_mountpoint_path(name, tag);
    assert(p =~= dir.push('/') + f);
    lemma_split_push(dir, f, '/');
    assert(keep_piece(f));
    let pieces = spec_split(p, '/');
    assert(pieces.drop_last() =~= spec_split(dir, '/'));
    assert(normal_pieces(pieces) == normal_pieces(spec_split(dir, '/')).push(f));
    assert(p[0] == '/' && dir[0] == '/');
    assert(spec_components(p) =~= spec_components(dir).push(f));
    assert(spec_components(p).take(spec_components(dir).len() as int) =~= spec_components(dir));
    assert(spec_path_starts_with(p, dir));
    assert(spec_components(p).last() == f);
    assert(f != seq!['/'] && f != seq!['.'] && f != seq!['.', '.']) by {
        assert(f.len() > 2);
    }
    assert(spec_file_name(p) == Some(f));
    assert(spec_ends_with(f, ".mountpoint"@)) by {
        assert(f.subrange(f.len() - 11, f.len() as int) =~= ".mountpoint"@);
    }
    assert(f.take(f.len() - 11) =~= stem);
    assert(spec_trim_end_str(f, ".mountpoint"@) == spec_trim_end_str(stem, ".mountpoint"@));
    assert(spec_trim_end_str(stem, ".mountpoint"@) == stem);
    assert(spec_mp_filename(p) == Some(stem));
    // the name and tag
    let pre = "realmfs-"@ + name;
    assert(stem =~= pre.push('-') + tag);
    lemma_last_dash_tail(pre, tag);
    let k = pre.len() as int;
    assert(spec_starts_with(stem, "realmfs-"@)) by {
        assert(stem.take(8) =~= "realmfs-"@);
    }
    assert(stem.subrange(8, k) =~= name);
    assert(stem.skip(k + 1) =~= tag);
    // the extension
    let d = f.len() - 11;
    assert(f[d] == '.');
    assert(forall|j: int| d < j < f.len() ==> f[j] != '.') by {
        assert forall|j: int| d < j < f.len() implies f[j] != '.' by {
            assert(f[j] == "mountpoint"@[j - d - 1]);
        }
    }
    let i = choose|i: int| 0 <= i < f.len() && f[i] == '.' && forall|j: int| i < j < f.len() ==> f[j] != '.';
    assert(0 <= i < f.len() && f[i] == '.' && forall|j: int| i < j < f.len() ==> f[j] != '.');
    assert(i == d) by {
        if i < d {
            assert(f[d] == '.');
        } else if i > d {
            assert(f[i] == "mountpoint"@[i - d - 1]);
        }
    }
    assert(f != seq!['.', '.']);
    assert(f.skip(d + 1) =~= "mountpoint"@);
    assert(spec_extension_of(f) == Some("mountpoint"@));
}

} // verus!
