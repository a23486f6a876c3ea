//! Paths held as strings, with the component semantics of `std::path::Path`
//! on Unix: repeated separators and `.` components (other than a leading
//! one) are ignored, and so is a trailing separator.
use vstd::prelude::*;

use crate::text::{
    chars_eq, chars_of, push_char, push_str, spec_split, spec_ends_with, spec_starts_with,
    split_char, str_eq, strings_view, to_owned_string,
};

verus! {

/// A piece between separators that names a component.
pub open spec fn keep_piece(p: Seq<char>) -> bool {
    p.len() > 0 && p != seq!['.']
}

/// The pieces of `ps` that name components, in order.
pub open spec fn normal_pieces(ps: Seq<Seq<char>>) -> Seq<Seq<char>>
    decreases ps.len(),
{
    if ps.len() == 0 {
        seq![]
    } else {
        let r = normal_pieces(ps.drop_last());
        if keep_piece(ps.last()) {
            r.push(ps.last())
        } else {
            r
        }
    }
}

/// The components of a path: `"/"` for the root of an absolute path, `"."`
/// for a leading current directory, then the named components.
pub open spec fn spec_components(s: Seq<char>) -> Seq<Seq<char>> {
    let pieces = spec_split(s, '/');
    let prefix = if s.len() > 0 && s[0] == '/' {
        seq![seq!['/']]
    } else if pieces[0] == seq!['.'] {
        seq![seq!['.']]
    } else {
        seq![]
    };
    prefix + normal_pieces(pieces)
}

/// `Path::new(a) == Path::new(b)`: the paths have the same components.
pub open spec fn spec_path_eq(a: Seq<char>, b: Seq<char>) -> bool {
    spec_components(a) == spec_components(b)
}

/// `Path::starts_with`: the components of `base` are a prefix of those of `p`.
pub open spec fn spec_path_starts_with(p: Seq<char>, base: Seq<char>) -> bool {
    let cp = spec_components(p);
    let cb = spec_components(base);
    cb.len() <= cp.len() && cp.take(cb.len() as int) == cb
}

/// `Path::file_name`: the last component, unless it is the root, `.` or `..`.
pub open spec fn spec_file_name(s: Seq<char>) -> Option<Seq<char>> {
    let c = spec_components(s);
    if c.len() > 0 && c.last() != seq!['/'] && c.last() != seq!['.'] && c.last() != seq!['.', '.'] {
        Some(c.last())
    } else {
        None
    }
}

/// Position of the last `'.'` in `name`, if any.
pub open spec fn last_dot(name: Seq<char>) -> Option<int> {
    if exists|i: int| 0 <= i < name.len() && name[i] == '.' {
        Some(choose|i: int| 0 <= i < name.len() && name[i] == '.' && forall|j: int| i < j < name.len() ==> name[j] != '.')
    } else {
        None
    }
}

/// `Path::extension` of a file name: the text after the last `'.'`, unless
/// there is no `'.'`, or the only one starts the name, or the name is `..`.
pub open spec fn spec_extension_of(name: Seq<char>) -> Option<Seq<char>> {
    if name == seq!['.', '.'] {
        None
    } else {
        match last_dot(name) {
            Some(i) => if i == 0 {
                None
            } else {
                Some(name.skip(i + 1))
            },
            None => None,
        }
    }
}

/// `Path::join`: `p` if it is absolute, else `p` appended to `base` after a
/// separator (none is added after an empty base or a trailing separator).
pub open spec fn spec_join(base: Seq<char>, p: Seq<char>) -> Seq<char> {
    if p.len() > 0 && p[0] == '/' {
        p
    } else if base.len() == 0 || spec_ends_with(base, seq!['/']) {
        base + p
    } else {
        base + seq!['/'] + p
    }
}

/// The components of the path `s`.
pub fn components(s: &str) -> (r: Vec<String>)
    ensures
        strings_view(r@) == spec_components(s@),
{
    let pieces = split_char(s, '/');
    let ghost ps = strings_view(pieces@);
    let v = chars_of(s);
    let mut out: Vec<String> = Vec::new();
    proof {
        let (a, b) = crate::text::split_fold(s@, '/');
        assert(ps == a.push(b));
        assert(ps.len() > 0);
    }
    if v.len() > 0 && v[0] == '/' {
        out.push(to_owned_string("/"));
        proof {
            reveal_strlit("/");
            assert("/"@ =~= seq!['/']);
        }
        assert(strings_view(out@) =~= seq![seq!['/']]);
    } else if is_dot(&pieces[0]) {
        out.push(to_owned_string("."));
        proof {
            reveal_strlit(".");
            assert("."@ =~= seq!['.']);
        }
        assert(strings_view(out@) =~= seq![seq!['.']]);
    } else {
        assert(strings_view(out@) =~= seq![]);
    }
    let ghost prefix = strings_view(out@);
    let mut i: usize = 0;
    while i < pieces.len()
        invariant
            i <= pieces@.len(),
            ps == strings_view(pieces@),
            strings_view(out@) == prefix + normal_pieces(ps.take(i as int)),
        decreases pieces@.len() - i,
    {
        assert(ps.take(i + 1).drop_last() =~= ps.take(i as int));
        let p = &pieces[i];
        let keep = !p.as_str().is_empty() && !is_dot(p);
        if keep {
            let ghost before = out@;
            out.push(p.clone());
            assert(strings_view(out@) =~= strings_view(before).push(p@));
        }
        i += 1;
    }
    assert(ps.take(pieces@.len() as int) =~= ps);
    out
}

fn is_dot(p: &String) -> (r: bool)
    ensures
        r == (p@ == seq!['.']),
{
    proof {
        reveal_strlit(".");
        assert("."@ =~= seq!['.']);
    }
    str_eq(p.as_str(), ".")
}

proof fn lemma_strings_view(v: Seq<String>)
    ensures
        strings_view(v).len() == v.len(),
        forall|i: int| 0 <= i < v.len() ==> #[trigger] strings_view(v)[i] == v[i]@,
{
}

/// `true` when the two lists of strings are equal.
pub fn strings_eq(a: &Vec<String>, b: &Vec<String>) -> (r: bool)
    ensures
        r == (strings_view(a@) == strings_view(b@)),
{
    proof {
        lemma_strings_view(a@);
        lemma_strings_view(b@);
    }
    if a.len() != b.len() {
        return false;
    }
    let mut i: usize = 0;
    while i < a.len()
        invariant
            a@.len() == b@.len(),
            i <= a@.len(),
            forall|j: int| 0 <= j < i ==> a@[j]@ == b@[j]@,
        decreases a@.len() - i,
    {
        if !str_eq(a[i].as_str(), b[i].as_str()) {
            assert(strings_view(a@)[i as int] != strings_view(b@)[i as int]);
            return false;
        }
        i += 1;
    }
    assert(strings_view(a@) =~= strings_view(b@));
    true
}

/// `Path::new(a) == Path::new(b)`.
pub fn path_eq(a: &str, b: &str) -> (r: bool)
    ensures
        r == spec_path_eq(a@, b@),
{
    let ca = components(a);
    let cb = components(b);
    strings_eq(&ca, &cb)
}

/// `Path::new(p).starts_with(base)`.
pub fn path_starts_with(p: &str, base: &str) -> (r: bool)
    ensures
        r == spec_path_starts_with(p@, base@),
{
    let cp = components(p);
    let cb = components(base);
    proof {
        lemma_strings_view(cp@);
        lemma_strings_view(cb@);
    }
    if cb.len() > cp.len() {
        return false;
    }
    let mut i: usize = 0;
    while i < cb.len()
        invariant
            cb@.len() <= cp@.len(),
            i <= cb@.len(),
            forall|j: int| 0 <= j < i ==> cp@[j]@ == cb@[j]@,
            strings_view(cp@) == spec_components(p@),
            strings_view(cb@) == spec_components(base@),
            strings_view(cp@).len() == cp@.len(),
            strings_view(cb@).len() == cb@.len(),
            forall|j: int| 0 <= j < cp@.len() ==> #[trigger] strings_view(cp@)[j] == cp@[j]@,
            forall|j: int| 0 <= j < cb@.len() ==> #[trigger] strings_view(cb@)[j] == cb@[j]@,
        decreases cb@.len() - i,
    {
        if !str_eq(cp[i].as_str(), cb[i].as_str()) {
            assert(strings_view(cp@).take(cb@.len() as int)[i as int] != strings_view(cb@)[i as int]);
            return false;
        }
        i += 1;
    }
    assert(strings_view(cp@).take(cb@.len() as int) =~= strings_view(cb@));
    true
}

/// `Path::file_name`.
pub fn file_name(p: &str) -> (r: Option<String>)
    ensures
        match r {
            Some(n) => spec_file_name(p@) == Some(n@),
            None => spec_file_name(p@) is None,
        },
{
    let c = components(p);
    proof {
        lemma_strings_view(c@);
    }
    if c.len() == 0 {
        return None;
    }
    let last = &c[c.len() - 1];
    proof {
        reveal_strlit("/");
        reveal_strlit(".");
        reveal_strlit("..");
        assert("/"@ =~= seq!['/']);
        assert("."@ =~= seq!['.']);
        assert(".."@ =~= seq!['.', '.']);
        assert(strings_view(c@).last() == last@);
    }
    if str_eq(last.as_str(), "/") || str_eq(last.as_str(), ".") || str_eq(last.as_str(), "..") {
        None
    } else {
        Some(last.clone())
    }
}

/// The extension of a file name, as `Path::extension` gives it.
pub fn extension_of(name: &str) -> (r: Option<String>)
    ensures
        match r {
            Some(e) => spec_extension_of(name@) == Some(e@),
            None => spec_extension_of(name@) is None,
        },
{
    proof {
        reveal_strlit("..");
        assert(".."@ =~= seq!['.', '.']);
    }
    if str_eq(name, "..") {
        return None;
    }
    let v = chars_of(name);
    let mut i = v.len();
    while i > 0 && v[i - 1] != '.'
        invariant
            i <= v@.len(),
            forall|j: int| i <= j < v@.len() ==> v@[j] != '.',
        decreases i,
    {
        i -= 1;
    }
    if i == 0 {
        return None;
    }
    let dot = i - 1;
    proof {
        let k = choose|k: int| 0 <= k < v@.len() && v@[k] == '.' && forall|j: int| k < j < v@.len() ==> v@[j] != '.';
        assert(0 <= k < v@.len() && v@[k] == '.' && forall|j: int| k < j < v@.len() ==> v@[j] != '.');
        if k < dot {
            assert(v@[dot as int] == '.');
        } else if k > dot {
        }
        assert(k == dot);
    }
    if dot == 0 {
        return None;
    }
    let e = crate::text::string_from_range(&v, dot + 1, v.len());
    assert(v@.skip(dot + 1) =~= v@.subrange(dot + 1, v@.len() as int));
    Some(e)
}

/// `Path::new(base).join(p)`.
pub fn join(base: &str, p: &str) -> (r: String)
    ensures
        r@ == spec_join(base@, p@),
{
    let vp = chars_of(p);
    if vp.len() > 0 && vp[0] == '/' {
        return to_owned_string(p);
    }
    let vb = chars_of(base);
    let mut r = to_owned_string(base);
    if !(vb.len() == 0 || vb[vb.len() - 1] == '/') {
        push_char(&mut r, '/');
    }
    push_str(&mut r, p);
    proof {
        if vb.len() > 0 && vb@[vb.len() - 1] == '/' {
            assert(vb@.subrange(vb@.len() - 1, vb@.len() as int) =~= seq!['/']);
        }
        if vb.len() > 0 && vb@[vb.len() - 1] != '/' {
            assert(vb@.subrange(vb@.len() - 1, vb@.len() as int)[0] != '/');
        }
    }
    r
}

/// The text of the path made of the components `c`, each joined to the
/// path of the ones before it (the root `/` first, if there is one).
pub open spec fn spec_path_text(c: Seq<Seq<char>>) -> Seq<char>
    decreases c.len(),
{
    if c.len() == 0 {
        seq![]
    } else {
        spec_join(spec_path_text(c.drop_last()), c.last())
    }
}

/// How many levels up from a symlink its temporary link is made: in the
/// link's directory, or in the parent of that directory.
pub open spec fn tmp_levels(tmp_in_parent: bool) -> int {
    if tmp_in_parent {
        2
    } else {
        1
    }
}

/// The temporary link from which a symlink at `link` is renamed into
/// place: the link's file name with `.tmp` appended, in the directory one
/// (or, with `tmp_in_parent`, two) levels up from the link. The link must
/// have a file name and that many ancestors.
pub fn symlink_tmp_path(link: &str, tmp_in_parent: bool) -> (r: String)
    requires
        spec_components(link@).len() > tmp_levels(tmp_in_parent),
        spec_file_name(link@) is Some,
    ensures
        r@ == spec_join(
            spec_path_text(
                spec_components(link@).take(spec_components(link@).len() - tmp_levels(tmp_in_parent)),
            ),
            spec_file_name(link@).unwrap() + ".tmp"@,
        ),
{
    let c = components(link);
    proof {
        lemma_strings_view(c@);
    }
    let ghost cv = spec_components(link@);
    let n: usize = if tmp_in_parent {
        2
    } else {
        1
    };
    let keep = c.len() - n;
    let mut dir = String::new();
    let mut i: usize = 0;
    while i < keep
        invariant
            i <= keep,
            keep <= c@.len(),
            strings_view(c@) == cv,
            cv.len() == c@.len(),
            dir@ == spec_path_text(cv.take(i as int)),
        decreases keep - i,
    {
        assert(cv.take(i + 1).drop_last() =~= cv.take(i as int));
        assert(strings_view(c@)[i as int] == c@[i as int]@);
        dir = join(dir.as_str(), c[i].as_str());
        i += 1;
    }
    let mut fname = match file_name(link) {
        Some(f) => f,
        None => vstd::pervasive::unreached(),
    };
    push_str(&mut fname, ".tmp");
    join(dir.as_str(), fname.as_str())
}

} // verus!
