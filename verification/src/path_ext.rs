//! The arguments of the commands run on image files and devices, and the
//! results of file inspection commands.
use vstd::prelude::*;

use crate::text::{decimal, decimal_string, push_str, spec_starts_with, starts_with, to_owned_string};

verus! {

/// Output of `/usr/bin/file -b` for a file.
pub struct FileTypeResult(String);

impl View for FileTypeResult {
    type V = Seq<char>;

    closed spec fn view(&self) -> Seq<char> {
        self.0@
    }
}

impl FileTypeResult {
    /// The result described by `output`.
    pub fn new(output: String) -> (r: FileTypeResult)
        ensures
            r@ == output@,
    {
        FileTypeResult(output)
    }

    /// `true` if the file is xz compressed.
    pub fn is_xz_compressed(&self) -> (r: bool)
        ensures
            r == spec_starts_with(self@, "XZ"@),
    {
        starts_with(self.0.as_str(), "XZ")
    }

    /// `true` if the file is an ext2 filesystem image.
    pub fn is_ext2_image(&self) -> (r: bool)
        ensures
            r == spec_starts_with(self@, "Linux rev 1.0 ext2 filesystem data"@),
    {
        starts_with(self.0.as_str(), "Linux rev 1.0 ext2 filesystem data")
    }

    /// The full output.
    pub fn output(&self) -> (r: &str)
        ensures
            r@ == self@,
    {
        self.0.as_str()
    }
}

/// `--<flag>=<n>` as one argument.
pub open spec fn flag_arg(flag: Seq<char>, n: nat) -> Seq<char> {
    "--"@ + flag + "="@ + decimal(n)
}

fn flag_string(flag: &str, n: usize) -> (r: String)
    ensures
        r@ == flag_arg(flag@, n as nat),
{
    let mut s = to_owned_string("--");
    push_str(&mut s, flag);
    push_str(&mut s, "=");
    let d = decimal_string(n as u64);
    push_str(&mut s, d.as_str());
    s
}

/// The arguments of `losetup` that attach the file `path` to a loop
/// device, with an optional offset and size limit, printing the device.
pub open spec fn spec_setup_loop_args(path: Seq<char>, offset: Option<usize>, sizelimit: Option<usize>) -> Seq<Seq<char>> {
    (match offset {
        Some(o) => seq!["--offset"@, decimal(o as nat)],
        None => Seq::empty(),
    }) + (match sizelimit {
        Some(l) => seq!["--sizelimit"@, decimal(l as nat)],
        None => Seq::empty(),
    }) + seq!["-f"@, path]
}

/// The arguments of `losetup` for `setup_loop`.
pub fn setup_loop_args(path: &str, offset: Option<usize>, sizelimit: Option<usize>) -> (r: Vec<String>)
    ensures
        r.deep_view() == spec_setup_loop_args(path@, offset, sizelimit),
{
    let mut v: Vec<String> = Vec::new();
    if let Some(o) = offset {
        v.push(to_owned_string("--offset"));
        v.push(decimal_string(o as u64));
    }
    let ghost head = v.deep_view();
    if let Some(l) = sizelimit {
        v.push(to_owned_string("--sizelimit"));
        v.push(decimal_string(l as u64));
    }
    let ghost mid = v.deep_view();
    v.push(to_owned_string("-f"));
    v.push(to_owned_string(path));
    proof {
        reveal_strlit("--offset");
        reveal_strlit("--sizelimit");
        reveal_strlit("-f");
        let o_part = match offset {
            Some(o) => seq!["--offset"@, decimal(o as nat)],
            None => Seq::<Seq<char>>::empty(),
        };
        let l_part = match sizelimit {
            Some(l) => seq!["--sizelimit"@, decimal(l as nat)],
            None => Seq::<Seq<char>>::empty(),
        };
        assert(head =~= o_part);
        assert(mid =~= o_part + l_part);
        assert(v.deep_view() =~= o_part + l_part + seq!["-f"@, path@]);
    }
    v
}

/// The arguments of `veritysetup` that regenerate the hash tree of the
/// image `path` with `salt`, appended after its `nblocks` data blocks at
/// byte `offset`.
pub open spec fn spec_verity_regenerate_args(path: Seq<char>, offset: usize, nblocks: usize, salt: Seq<char>) -> Seq<Seq<char>> {
    seq![
        flag_arg("hash-offset"@, offset as nat),
        flag_arg("data-blocks"@, nblocks as nat),
        "--salt="@ + salt,
        "format"@,
        path,
        path,
    ]
}

/// The arguments of `veritysetup` for `verity_regenerate_hashtree`.
pub fn verity_regenerate_args(path: &str, offset: usize, nblocks: usize, salt: &str) -> (r: Vec<String>)
    ensures
        r.deep_view() == spec_verity_regenerate_args(path@, offset, nblocks, salt@),
{
    let mut v: Vec<String> = Vec::new();
    v.push(flag_string("hash-offset", offset));
    v.push(flag_string("data-blocks", nblocks));
    let mut s = to_owned_string("--salt=");
    push_str(&mut s, salt);
    v.push(s);
    v.push(to_owned_string("format"));
    v.push(to_owned_string(path));
    v.push(to_owned_string(path));
    assert(v.deep_view() =~= spec_verity_regenerate_args(path@, offset, nblocks, salt@));
    v
}

/// The arguments of `veritysetup` that create the verity device `devname`
/// over the image `path`, whose hash tree starts at byte `offset` after
/// `nblocks` data blocks and has root hash `roothash`.
pub open spec fn spec_verity_setup_args(path: Seq<char>, offset: usize, nblocks: usize, roothash: Seq<char>, devname: Seq<char>) -> Seq<Seq<char>> {
    seq![
        flag_arg("hash-offset"@, offset as nat),
        flag_arg("data-blocks"@, nblocks as nat),
        "create"@,
        devname,
        path,
        path,
        roothash,
    ]
}

/// The arguments of `veritysetup` for `verity_setup`.
pub fn verity_setup_args(path: &str, offset: usize, nblocks: usize, roothash: &str, devname: &str) -> (r: Vec<String>)
    ensures
        r.deep_view() == spec_verity_setup_args(path@, offset, nblocks, roothash@, devname@),
{
    let mut v: Vec<String> = Vec::new();
    v.push(flag_string("hash-offset", offset));
    v.push(flag_string("data-blocks", nblocks));
    v.push(to_owned_string("create"));
    v.push(to_owned_string(devname));
    v.push(to_owned_string(path));
    v.push(to_owned_string(path));
    v.push(to_owned_string(roothash));
    assert(v.deep_view() =~= spec_verity_setup_args(path@, offset, nblocks, roothash@, devname@));
    v
}

} // verus!
