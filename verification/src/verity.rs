//! dm-verity devices for resource images: device names, the arguments of
//! the `veritysetup` commands, and the parsing of their output.
use vstd::prelude::*;

use crate::error::Error;
use crate::header::MetaInfo;
use crate::realmfs::mountpoint::{Mountpoint, has_parts, spec_mp_realmfs, spec_mp_tag};
use crate::strmap::StrMap;
use crate::text::{
    decimal, decimal_string, lines, push_str, spec_lines, spec_split, spec_trim, split_char,
    str_eq, strings_view, to_owned_string, trim,
};

verus! {

/// The `key: value` pairs of `veritysetup format` output lines; a line with
/// other than exactly one `':'` is skipped, and a later key overrides an
/// earlier one.
pub open spec fn spec_verity_map(lines: Seq<Seq<char>>) -> Map<Seq<char>, Seq<char>>
    decreases lines.len(),
{
    if lines.len() == 0 {
        Map::empty()
    } else {
        let m = spec_verity_map(lines.drop_last());
        let parts = spec_split(lines.last(), ':');
        if parts.len() == 2 {
            m.insert(spec_trim(parts[0]), spec_trim(parts[1]))
        } else {
            m
        }
    }
}

/// The output from the `veritysetup format` command, parsed as key/value pairs.
pub struct VerityOutput {
    output: String,
    map: StrMap<String>,
}

/// Model of a parsed `veritysetup` output.
pub struct VerityOutputView {
    pub output: Seq<char>,
    pub map: Map<Seq<char>, Seq<char>>,
}

impl View for VerityOutput {
    type V = VerityOutputView;

    closed spec fn view(&self) -> VerityOutputView {
        VerityOutputView { output: self.output@, map: self.map@ }
    }
}

impl VerityOutput {
    /// Parse `output` as the standard output of `veritysetup format`.
    pub fn parse(output: &str) -> (vo: VerityOutput)
        ensures
            vo@.output == output@,
            vo@.map == spec_verity_map(spec_lines(output@)),
    {
        let mut vo = VerityOutput { output: to_owned_string(output), map: StrMap::new() };
        let ls = lines(output);
        let ghost lv = strings_view(ls@);
        let mut i: usize = 0;
        while i < ls.len()
            invariant
                i <= ls@.len(),
                lv == strings_view(ls@),
                lv == spec_lines(output@),
                vo@.output == output@,
                vo@.map == spec_verity_map(lv.take(i as int)),
            decreases ls@.len() - i,
        {
            assert(lv.take(i + 1).drop_last() =~= lv.take(i as int));
            assert(lv[i as int] == ls@[i as int]@);
            vo.parse_line(ls[i].as_str());
            i += 1;
        }
        assert(lv.take(ls@.len() as int) =~= lv);
        vo
    }

    fn parse_line(&mut self, line: &str)
        ensures
            final(self)@.output == old(self)@.output,
            final(self)@.map == {
                let parts = spec_split(line@, ':');
                if parts.len() == 2 {
                    old(self)@.map.insert(spec_trim(parts[0]), spec_trim(parts[1]))
                } else {
                    old(self)@.map
                }
            },
    {
        let v = split_char(line, ':');
        assert(strings_view(v@).len() == v@.len());
        if v.len() == 2 {
            assert(strings_view(v@)[0] == v@[0]@);
            assert(strings_view(v@)[1] == v@[1]@);
            let k = trim(v[0].as_str());
            let val = trim(v[1].as_str());
            self.map.insert(k, val);
        }
    }

    /// The value of the `Root hash` line.
    pub fn root_hash(&self) -> (r: Option<&str>)
        ensures
            match r {
                Some(h) => self@.map.contains_key("Root hash"@) && self@.map["Root hash"@] == h@,
                None => !self@.map.contains_key("Root hash"@),
            },
    {
        match self.map.get("Root hash") {
            Some(s) => Some(s.as_str()),
            None => None,
        }
    }

    /// The value of the `Salt` line.
    pub fn salt(&self) -> (r: Option<&str>)
        ensures
            match r {
                Some(h) => self@.map.contains_key("Salt"@) && self@.map["Salt"@] == h@,
                None => !self@.map.contains_key("Salt"@),
            },
    {
        match self.map.get("Salt") {
            Some(s) => Some(s.as_str()),
            None => None,
        }
    }

    /// The full output.
    pub fn output(&self) -> (r: &str)
        ensures
            r@ == self@.output,
    {
        self.output.as_str()
    }
}

/// The name of the verity device for an image with metainfo `m`.
pub open spec fn spec_device_name(m: crate::header::MetaInfoView) -> Seq<char> {
    if m.image_type == "rootfs"@ {
        "rootfs"@
    } else if m.image_type == "realmfs"@ {
        "verity-realmfs-"@ + (match m.realmfs_name {
            Some(n) => n,
            None => "unknown"@,
        }) + "-"@ + m.verity_root.take(if m.verity_root.len() < 8 {
            m.verity_root.len() as int
        } else {
            8
        })
    } else {
        "verity-"@ + m.image_type
    }
}

/// A resource image set up with dm-verity.
pub struct Verity {
    image: String,
}

impl View for Verity {
    type V = Seq<char>;

    closed spec fn view(&self) -> Seq<char> {
        self.image@
    }
}

impl Verity {
    /// The `veritysetup` command.
    pub const VERITYSETUP: &'static str = "/sbin/veritysetup";

    /// Verity operations on the image file `image`.
    pub fn new(image: &str) -> (v: Verity)
        ensures
            v@ == image@,
    {
        Verity { image: to_owned_string(image) }
    }

    /// Path of the image file.
    pub fn path(&self) -> (r: &str)
        ensures
            r@ == self@,
    {
        self.image.as_str()
    }

    /// The name of the verity device for an image: `rootfs` for the rootfs
    /// image, `verity-realmfs-$name-$tag` for a RealmFS image and
    /// `verity-$type` otherwise.
    pub fn device_name(metainfo: &MetaInfo) -> (r: String)
        ensures
            r@ == spec_device_name(metainfo@),
    {
        if str_eq(metainfo.image_type(), "rootfs") {
            to_owned_string("rootfs")
        } else if str_eq(metainfo.image_type(), "realmfs") {
            let name = match metainfo.realmfs_name() {
                Some(n) => n,
                None => "unknown",
            };
            let mut s = to_owned_string("verity-realmfs-");
            push_str(&mut s, name);
            push_str(&mut s, "-");
            let tag = metainfo.verity_tag();
            push_str(&mut s, tag.as_str());
            s
        } else {
            let mut s = to_owned_string("verity-");
            push_str(&mut s, metainfo.image_type());
            s
        }
    }

    /// The name of the verity device behind a RealmFS mountpoint:
    /// `verity-realmfs-$name-$tag`, from the fields of its file name.
    pub fn device_name_for_mountpoint(mountpoint: &Mountpoint) -> (r: String)
        requires
            has_parts(mountpoint@),
        ensures
            r@ == "verity-realmfs-"@ + spec_mp_realmfs(mountpoint@) + "-"@ + spec_mp_tag(mountpoint@),
    {
        let mut s = to_owned_string("verity-realmfs-");
        let name = mountpoint.realmfs();
        push_str(&mut s, name.as_str());
        push_str(&mut s, "-");
        let tag = mountpoint.tag();
        push_str(&mut s, tag.as_str());
        s
    }

    /// The image file holds exactly the header and `nblocks` data blocks, so
    /// that a hash tree appended to it lands in the right place.
    pub fn check_image_size(len: u64, nblocks: usize) -> (r: Result<(), Error>)
        ensures
            r is Ok <==> len == (nblocks + 1) * 4096,
            r matches Err(e) ==> e == Error::BadFileSize,
    {
        if (nblocks as u128 + 1) * 4096 != len as u128 {
            return Err(Error::BadFileSize);
        }
        Ok(())
    }

    /// Arguments of `veritysetup` to create device `devname` over `srcdev`
    /// for an image whose hash tree follows its `nblocks` data blocks.
    pub fn setup_device_args(srcdev: &str, devname: &str, metainfo: &MetaInfo) -> (r: String)
        ensures
            r@ == "--hash-offset="@ + decimal(metainfo@.nblocks as nat * 4096) + " --data-blocks="@
                + decimal(metainfo@.nblocks as nat) + " create "@ + devname@ + " "@ + srcdev@ + " "@
                + srcdev@ + " "@ + metainfo@.verity_root,
    {
        let nblocks = metainfo.nblocks() as u64;
        let mut s = to_owned_string("--hash-offset=");
        push_str(&mut s, decimal_string(nblocks * 4096).as_str());
        push_str(&mut s, " --data-blocks=");
        push_str(&mut s, decimal_string(nblocks).as_str());
        push_str(&mut s, " create ");
        push_str(&mut s, devname);
        push_str(&mut s, " ");
        push_str(&mut s, srcdev);
        push_str(&mut s, " ");
        push_str(&mut s, srcdev);
        push_str(&mut s, " ");
        push_str(&mut s, metainfo.verity_root());
        s
    }

    /// Arguments of `veritysetup` to verify the image attached at `loopdev`.
    pub fn verify_args(loopdev: &str, metainfo: &MetaInfo) -> (r: String)
        ensures
            r@ == "--hash-offset="@ + decimal(metainfo@.nblocks as nat * 4096) + " verify "@
                + loopdev@ + " "@ + loopdev@ + " "@ + metainfo@.verity_root,
    {
        let nblocks = metainfo.nblocks() as u64;
        let mut s = to_owned_string("--hash-offset=");
        push_str(&mut s, decimal_string(nblocks * 4096).as_str());
        push_str(&mut s, " verify ");
        push_str(&mut s, loopdev);
        push_str(&mut s, " ");
        push_str(&mut s, loopdev);
        push_str(&mut s, " ");
        push_str(&mut s, metainfo.verity_root());
        s
    }

    /// Arguments of `veritysetup` to generate the hash tree of the image
    /// attached at `loopdev` into `verityfile`.
    pub fn format_args(loopdev: &str, verityfile: &str, metainfo: &MetaInfo, salt: &str) -> (r: String)
        ensures
            r@ == "--data-blocks="@ + decimal(metainfo@.nblocks as nat) + " --salt="@ + salt@
                + " format "@ + loopdev@ + " "@ + verityfile@,
    {
        let mut s = to_owned_string("--data-blocks=");
        push_str(&mut s, decimal_string(metainfo.nblocks() as u64).as_str());
        push_str(&mut s, " --salt=");
        push_str(&mut s, salt);
        push_str(&mut s, " format ");
        push_str(&mut s, loopdev);
        push_str(&mut s, " ");
        push_str(&mut s, verityfile);
        s
    }
}

} // verus!
