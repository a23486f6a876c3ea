//! Entries of the mount table, parsed into their four leading fields.
use vstd::prelude::*;

use crate::text::{
    lines, spec_lines, spec_split_whitespace, split_whitespace, str_eq, strings_view,
};

verus! {

/// Model of a mount entry.
pub struct MountView {
    pub source: Seq<char>,
    pub target: Seq<char>,
    pub fstype: Seq<char>,
    pub options: Seq<char>,
}

/// The mount entry of `line`, if it has at least four fields.
pub open spec fn spec_parse_mount_line(line: Seq<char>) -> Option<MountView> {
    let w = spec_split_whitespace(line);
    if w.len() < 4 {
        None
    } else {
        Some(MountView { source: w[0], target: w[1], fstype: w[2], options: w[3] })
    }
}

/// The mount entries of `lines`, skipping lines that do not parse.
pub open spec fn spec_all_mounts(lines: Seq<Seq<char>>) -> Seq<MountView>
    decreases lines.len(),
{
    if lines.len() == 0 {
        seq![]
    } else {
        let r = spec_all_mounts(lines.drop_last());
        match spec_parse_mount_line(lines.last()) {
            Some(m) => r.push(m),
            None => r,
        }
    }
}

/// A mount entry: source, target, filesystem type and options.
pub struct Mount {
    source: String,
    target: String,
    fstype: String,
    options: String,
}

impl View for Mount {
    type V = MountView;

    closed spec fn view(&self) -> MountView {
        MountView {
            source: self.source@,
            target: self.target@,
            fstype: self.fstype@,
            options: self.options@,
        }
    }
}

impl Mount {
    /// Returns `true` if `path` matches the source field (first field) of any
    /// of the mount lines in `content`, the text of /proc/mounts.
    pub fn is_path_mounted(content: &str, path: &str) -> (r: bool)
        ensures
            r == exists|i: int|
                0 <= i < spec_all_mounts(spec_lines(content@)).len() && (#[trigger] spec_all_mounts(
                    spec_lines(content@),
                )[i]).source == path@,
    {
        let mounts = Mount::all_mounts(content);
        let ghost all = spec_all_mounts(spec_lines(content@));
        let mut i: usize = 0;
        while i < mounts.len()
            invariant
                i <= mounts@.len(),
                all == spec_all_mounts(spec_lines(content@)),
                mounts@.len() == all.len(),
                forall|j: int| 0 <= j < mounts@.len() ==> (#[trigger] mounts@[j])@ == all[j],
                forall|j: int| 0 <= j < i ==> (#[trigger] all[j]).source != path@,
            decreases mounts@.len() - i,
        {
            if str_eq(mounts[i].source.as_str(), path) {
                assert(mounts@[i as int]@ == all[i as int]);
                return true;
            }
            assert(mounts@[i as int]@ == all[i as int]);
            i += 1;
        }
        false
    }

    /// All entries of the mount table `content`.
    pub fn all_mounts(content: &str) -> (r: Vec<Mount>)
        ensures
            r@.len() == spec_all_mounts(spec_lines(content@)).len(),
            forall|i: int| 0 <= i < r@.len() ==> (#[trigger] r@[i])@ == spec_all_mounts(
                spec_lines(content@),
            )[i],
    {
        let ls = lines(content);
        let ghost lv = strings_view(ls@);
        let mut out: Vec<Mount> = Vec::new();
        let mut i: usize = 0;
        while i < ls.len()
            invariant
                i <= ls@.len(),
                lv == strings_view(ls@),
                lv == spec_lines(content@),
                out@.len() == spec_all_mounts(lv.take(i as int)).len(),
                forall|j: int| 0 <= j < out@.len() ==> (#[trigger] out@[j])@ == spec_all_mounts(
                    lv.take(i as int),
                )[j],
            decreases ls@.len() - i,
        {
            assert(lv.take(i + 1).drop_last() =~= lv.take(i as int));
            assert(lv[i as int] == ls@[i as int]@);
            match Mount::parse_mount_line(ls[i].as_str()) {
                Some(m) => out.push(m),
                None => {},
            }
            i += 1;
        }
        assert(lv.take(ls@.len() as int) =~= lv);
        out
    }

    fn parse_mount_line(line: &str) -> (r: Option<Mount>)
        ensures
            match r {
                Some(m) => spec_parse_mount_line(line@) == Some(m@),
                None => spec_parse_mount_line(line@) is None,
            },
    {
        let parts = split_whitespace(line);
        assert(strings_view(parts@).len() == parts@.len());
        if parts.len() < 4 {
            return None;
        }
        proof {
            assert(strings_view(parts@)[0] == parts@[0]@);
            assert(strings_view(parts@)[1] == parts@[1]@);
            assert(strings_view(parts@)[2] == parts@[2]@);
            assert(strings_view(parts@)[3] == parts@[3]@);
        }
        Some(
            Mount {
                source: parts[0].clone(),
                target: parts[1].clone(),
                fstype: parts[2].clone(),
                options: parts[3].clone(),
            },
        )
    }

    pub fn source(&self) -> (r: &str)
        ensures
            r@ == self@.source,
    {
        self.source.as_str()
    }

    pub fn target(&self) -> (r: &str)
        ensures
            r@ == self@.target,
    {
        self.target.as_str()
    }

    pub fn fstype(&self) -> (r: &str)
        ensures
            r@ == self@.fstype,
    {
        self.fstype.as_str()
    }

    pub fn options(&self) -> (r: &str)
        ensures
            r@ == self@.options,
    {
        self.options.as_str()
    }
}

} // verus!
