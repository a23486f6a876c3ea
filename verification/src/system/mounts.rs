//! The mount table (the contents of `/proc/mounts`).
use vstd::prelude::*;

use crate::path::{path_eq, spec_path_eq};
use crate::strmap::StrMap;
use crate::text::{
    lines, spec_lines, spec_split, spec_split_once, spec_split_whitespace, split_char, split_once,
    split_whitespace, strings_view, to_owned_string,
};

verus! {

/// The mount lines among `lines`: those with at least four fields.
pub open spec fn spec_mount_lines(lines: Seq<Seq<char>>) -> Seq<Seq<char>>
    decreases lines.len(),
{
    if lines.len() == 0 {
        seq![]
    } else {
        let r = spec_mount_lines(lines.drop_last());
        if spec_split_whitespace(lines.last()).len() >= 4 {
            r.push(lines.last())
        } else {
            r
        }
    }
}

/// Field `n` of a mount line.
pub open spec fn spec_field(line: Seq<char>, n: int) -> Seq<char> {
    spec_split_whitespace(line)[n]
}

/// The `key=value` options of an options field; an option without `'='`
/// has an empty value, and a later option overrides an earlier one.
pub open spec fn spec_options(pieces: Seq<Seq<char>>) -> Map<Seq<char>, Seq<char>>
    decreases pieces.len(),
{
    if pieces.len() == 0 {
        Map::empty()
    } else {
        let (k, v) = spec_split_once(pieces.last(), '=');
        spec_options(pieces.drop_last()).insert(
            k,
            match v {
                Some(v) => v,
                None => seq![],
            },
        )
    }
}

/// The contents of the mount table.
pub struct Mounts {
    content: String,
}

impl View for Mounts {
    type V = Seq<char>;

    closed spec fn view(&self) -> Seq<char> {
        self.content@
    }
}

/// A line of the mount table that has at least four fields.
pub struct MountLine {
    line: String,
}

impl View for MountLine {
    type V = Seq<char>;

    closed spec fn view(&self) -> Seq<char> {
        self.line@
    }
}

impl Mounts {
    /// The mount table with the given contents.
    pub fn new(content: String) -> (m: Mounts)
        ensures
            m@ == content@,
    {
        Mounts { content }
    }

    /// `true` if `path` is the source (first field) of a mount line.
    pub fn is_source_mounted(&self, path: &str) -> (r: bool)
        ensures
            r == exists|i: int|
                0 <= i < spec_mount_lines(spec_lines(self@)).len() && spec_path_eq(
                    spec_field(#[trigger] spec_mount_lines(spec_lines(self@))[i], 0),
                    path@,
                ),
    {
        self.any_field_is(0, path)
    }

    /// `true` if `path` is the target (second field) of a mount line.
    pub fn is_target_mounted(&self, path: &str) -> (r: bool)
        ensures
            r == exists|i: int|
                0 <= i < spec_mount_lines(spec_lines(self@)).len() && spec_path_eq(
                    spec_field(#[trigger] spec_mount_lines(spec_lines(self@))[i], 1),
                    path@,
                ),
    {
        self.any_field_is(1, path)
    }

    fn any_field_is(&self, n: usize, path: &str) -> (r: bool)
        requires
            n < 4,
        ensures
            r == exists|i: int|
                0 <= i < spec_mount_lines(spec_lines(self@)).len() && spec_path_eq(
                    spec_field(#[trigger] spec_mount_lines(spec_lines(self@))[i], n as int),
                    path@,
                ),
    {
        let ms = self.mounts();
        let ghost ml = spec_mount_lines(spec_lines(self@));
        let mut i: usize = 0;
        while i < ms.len()
            invariant
                i <= ms@.len(),
                n < 4,
                ml == spec_mount_lines(spec_lines(self@)),
                ms@.len() == ml.len(),
                forall|j: int| 0 <= j < ms@.len() ==> (#[trigger] ms@[j])@ == ml[j],
                forall|j: int| 0 <= j < ms@.len() ==> spec_split_whitespace((#[trigger] ms@[j])@).len() >= 4,
                forall|j: int| 0 <= j < i ==> !spec_path_eq(spec_field(#[trigger] ml[j], n as int), path@),
            decreases ms@.len() - i,
        {
            let f = ms[i].field(n);
            if path_eq(f.as_str(), path) {
                assert(ms@[i as int]@ == ml[i as int]);
                return true;
            }
            i += 1;
        }
        false
    }

    /// The lines of the mount table that have at least four fields.
    pub fn mounts(&self) -> (r: Vec<MountLine>)
        ensures
            r@.len() == spec_mount_lines(spec_lines(self@)).len(),
            forall|i: int| 0 <= i < r@.len() ==> (#[trigger] r@[i])@ == spec_mount_lines(
                spec_lines(self@),
            )[i],
            forall|i: int| 0 <= i < r@.len() ==> spec_split_whitespace((#[trigger] r@[i])@).len() >= 4,
    {
        let ls = lines(self.content.as_str());
        let ghost lv = strings_view(ls@);
        let mut out: Vec<MountLine> = Vec::new();
        let mut i: usize = 0;
        while i < ls.len()
            invariant
                i <= ls@.len(),
                lv == strings_view(ls@),
                lv == spec_lines(self@),
                out@.len() == spec_mount_lines(lv.take(i as int)).len(),
                forall|j: int| 0 <= j < out@.len() ==> (#[trigger] out@[j])@ == spec_mount_lines(
                    lv.take(i as int),
                )[j],
                forall|j: int| 0 <= j < out@.len() ==> spec_split_whitespace((#[trigger] out@[j])@).len() >= 4,
            decreases ls@.len() - i,
        {
            assert(lv.take(i + 1).drop_last() =~= lv.take(i as int));
            assert(lv[i as int] == ls@[i as int]@);
            match MountLine::new(ls[i].as_str()) {
                Some(m) => {
                    out.push(m);
                },
                None => {},
            }
            i += 1;
        }
        assert(lv.take(ls@.len() as int) =~= lv);
        out
    }
}

impl MountLine {
    /// A mount line for `line`, if it has at least four fields.
    pub fn new(line: &str) -> (r: Option<MountLine>)
        ensures
            match r {
                Some(m) => m@ == line@ && spec_split_whitespace(line@).len() >= 4,
                None => spec_split_whitespace(line@).len() < 4,
            },
    {
        let words = split_whitespace(line);
        assert(strings_view(words@).len() == words@.len());
        if words.len() >= 4 {
            Some(MountLine { line: to_owned_string(line) })
        } else {
            None
        }
    }

    fn field(&self, n: usize) -> (r: String)
        requires
            n < 4,
            spec_split_whitespace(self@).len() >= 4,
        ensures
            r@ == spec_field(self@, n as int),
    {
        let words = split_whitespace(self.line.as_str());
        assert(strings_view(words@)[n as int] == words@[n as int]@);
        words[n].clone()
    }

    fn has_fields(&self) -> (r: bool)
        ensures
            r == (spec_split_whitespace(self@).len() >= 4),
    {
        let words = split_whitespace(self.line.as_str());
        assert(strings_view(words@).len() == words@.len());
        words.len() >= 4
    }

    /// The source field. The line must have at least four fields.
    pub fn source(&self) -> (r: String)
        requires
            spec_split_whitespace(self@).len() >= 4,
        ensures
            r@ == spec_field(self@, 0),
    {
        self.field(0)
    }

    /// The source field, as a path.
    pub fn source_path(&self) -> (r: String)
        requires
            spec_split_whitespace(self@).len() >= 4,
        ensures
            r@ == spec_field(self@, 0),
    {
        self.field(0)
    }

    /// The mount target field.
    pub fn target(&self) -> (r: String)
        requires
            spec_split_whitespace(self@).len() >= 4,
        ensures
            r@ == spec_field(self@, 1),
    {
        self.field(1)
    }

    /// The mount target field, as a path.
    pub fn target_path(&self) -> (r: String)
        requires
            spec_split_whitespace(self@).len() >= 4,
        ensures
            r@ == spec_field(self@, 1),
    {
        self.field(1)
    }

    /// The filesystem type field.
    pub fn fstype(&self) -> (r: String)
        requires
            spec_split_whitespace(self@).len() >= 4,
        ensures
            r@ == spec_field(self@, 2),
    {
        self.field(2)
    }

    /// The options field as a map of `key=value` pairs.
    pub fn options(&self) -> (r: StrMap<String>)
        requires
            spec_split_whitespace(self@).len() >= 4,
        ensures
            r@ == spec_options(spec_split(spec_field(self@, 3), ',')),
    {
        let f = self.field(3);
        let pieces = split_char(f.as_str(), ',');
        let ghost pv = strings_view(pieces@);
        let mut map: StrMap<String> = StrMap::new();
        let mut i: usize = 0;
        while i < pieces.len()
            invariant
                i <= pieces@.len(),
                pv == strings_view(pieces@),
                map@ == spec_options(pv.take(i as int)),
            decreases pieces@.len() - i,
        {
            assert(pv.take(i + 1).drop_last() =~= pv.take(i as int));
            assert(pv[i as int] == pieces@[i as int]@);
            let (k, v) = Self::parse_key_val(pieces[i].as_str());
            map.insert(k, v);
            i += 1;
        }
        assert(pv.take(pieces@.len() as int) =~= pv);
        map
    }

    fn parse_key_val(option: &str) -> (r: (String, String))
        ensures
            r.0@ == spec_split_once(option@, '=').0,
            r.1@ == match spec_split_once(option@, '=').1 {
                Some(v) => v,
                None => seq![],
            },
    {
        let (k, v) = split_once(option, '=');
        match v {
            Some(v) => (k, v),
            None => (k, String::new()),
        }
    }
}

} // verus!
