//! Resource images: disk image files with an image header, loop mounted
//! (optionally through dm-verity), whose `manifest` file lists bind mounts
//! from the mounted tree to the system root.
//!
//! Kernel command line options control how an image is mounted:
//! `citadel.noverity` mounts without dm-verity and skips the header
//! signature check; `citadel.nosignatures` only skips the signature check.
//! Images are searched for in the run directory first, then in the storage
//! directory of the channel.
use vstd::prelude::*;

use crate::cmdline::{spec_channel_name, CommandLine};
use crate::config::OsRelease;
use crate::error::Error;
use crate::header::{metainfo_len_ok, spec_metainfo_bytes, spec_signature, HeaderView, ImageHeader, MetaInfo, MetaInfoView};
use crate::keys::{ed25519_verify, spec_public_key_for_channel};
use crate::path::{extension_of, file_name, join, spec_extension_of, spec_file_name, spec_join};
use crate::text::{
    contains_char, push_str, spec_split,
    spec_split_whitespace, spec_trim_start_matches, split_char, split_whitespace, str_eq,
    strings_view, to_owned_string, trim_start_matches,
};

verus! {

/// Directory of images staged for this boot.
pub const RUN_DIRECTORY: &'static str = "/run/citadel/images";

/// Base directory of the images kept in storage, one directory per channel.
pub const STORAGE_BASEDIR: &'static str = "/sysroot/storage/resources";

/// Flag of an image whose data is xz compressed.
pub const FLAG_DATA_COMPRESSED: u8 = 0x04;

/// Flag of an image that has its dm-verity hash tree appended.
pub const FLAG_HASH_TREE: u8 = 0x02;

/// The extension of the file name of a path, if any.
pub open spec fn spec_path_extension(path: Seq<char>) -> Option<Seq<char>> {
    match spec_file_name(path) {
        Some(n) => spec_extension_of(n),
        None => None,
    }
}

/// The extension of the file name of `path`, if any.
pub fn path_extension(path: &str) -> (r: Option<String>)
    ensures
        match spec_path_extension(path@) {
            Some(e) => r matches Some(s) && s@ == e,
            None => r is None,
        },
{
    match file_name(path) {
        Some(n) => extension_of(n.as_str()),
        None => None,
    }
}

/// The model of a resource image.
pub struct ResourceView {
    /// Path of the image file.
    pub path: Seq<char>,
    /// The image header.
    pub header: HeaderView,
    /// Creation time of the image file, in seconds.
    pub created: i64,
}

/// A resource image file, its header and the creation time of the file.
pub struct ResourceImage {
    path: String,
    header: ImageHeader,
    created: i64,
}

impl View for ResourceImage {
    type V = ResourceView;

    closed spec fn view(&self) -> ResourceView {
        ResourceView { path: self.path@, header: self.header@, created: self.created }
    }
}

/// Where an image is mounted: `<run dir>/<name>-realmfs.mountpoint` for a
/// RealmFS image, `<run dir>/<image type>.mountpoint` otherwise.
pub open spec fn spec_mount_path(m: MetaInfoView) -> Seq<char> {
    if m.image_type == "realmfs"@ {
        RUN_DIRECTORY@ + "/"@ + m.realmfs_name->0 + "-realmfs.mountpoint"@
    } else {
        RUN_DIRECTORY@ + "/"@ + m.image_type + ".mountpoint"@
    }
}

/// The bind mount a manifest line asks for, as paths relative to the
/// mounted image and to the system root: the line without leading `/`,
/// either one path used for both or a source and target separated by `:`
/// (the target also without leading `/`).
pub open spec fn spec_manifest_paths(line: Seq<char>) -> Result<(Seq<char>, Seq<char>), Error> {
    let l = spec_trim_start_matches(line, seq!['/']);
    if l.contains(':') {
        let v = spec_split(l, ':');
        if v.len() != 2 {
            Err(Error::BadManifestLine)
        } else {
            Ok((v[0], spec_trim_start_matches(v[1], seq!['/'])))
        }
    } else {
        Ok((l, l))
    }
}

impl ResourceImage {
    /// The image at `path` with header `header`, whose file was created at
    /// `created`; refused when the header magic is not valid. The file name
    /// must have the `img` extension.
    pub fn from_path(path: &str, header: ImageHeader, created: i64) -> (r: Result<ResourceImage, Error>)
        requires
            spec_path_extension(path@) == Some("img"@),
        ensures
            spec_magic_valid_header(header@) ==> (r matches Ok(i) && i@ == (ResourceView {
                path: path@,
                header: header@,
                created,
            })),
            !spec_magic_valid_header(header@) ==> r == Err::<ResourceImage, Error>(Error::BadHeader),
    {
        if !header.is_magic_valid() {
            return Err(Error::BadHeader);
        }
        Ok(ResourceImage::new(path, header, created))
    }

    fn new(path: &str, header: ImageHeader, created: i64) -> (r: ResourceImage)
        requires
            spec_path_extension(path@) == Some("img"@),
        ensures
            r@ == (ResourceView { path: path@, header: header@, created }),
    {
        ResourceImage { path: to_owned_string(path), header, created }
    }

    /// Creation time of the image file.
    pub fn created(&self) -> (r: i64)
        ensures
            r == self@.created,
    {
        self.created
    }

    /// Whether the header magic is valid.
    pub fn is_valid_image(&self) -> (r: bool)
        ensures
            r == spec_magic_valid_header(self@.header),
    {
        self.header.is_magic_valid()
    }

    /// Path of the image file.
    pub fn path(&self) -> (r: &str)
        ensures
            r@ == self@.path,
    {
        self.path.as_str()
    }

    /// The image header.
    pub fn header(&self) -> (r: &ImageHeader)
        ensures
            r@ == self@.header,
    {
        &self.header
    }

    /// Mutable access to the image header, for updates the caller then
    /// writes back to the file.
    pub fn header_mut(&mut self) -> (r: &mut ImageHeader)
        ensures
            r@ == old(self)@.header,
            final(self)@.path == old(self)@.path,
            final(self)@.created == old(self)@.created,
            final(self)@.header == final(r)@,
    {
        &mut self.header
    }

    /// The metainfo document of the header.
    pub fn metainfo(&self) -> (r: &MetaInfo)
        requires
            self@.header.metainfo is Some,
        ensures
            self@.header.metainfo == Some(r@),
    {
        self.header.metainfo()
    }

    /// Whether the image data is compressed.
    pub fn is_compressed(&self) -> (r: bool)
        ensures
            r == (self@.header.bytes[5] & FLAG_DATA_COMPRESSED == FLAG_DATA_COMPRESSED),
    {
        self.header.has_flag(FLAG_DATA_COMPRESSED)
    }

    /// Whether the dm-verity hash tree is appended to the image.
    pub fn has_verity_hashtree(&self) -> (r: bool)
        ensures
            r == (self@.header.bytes[5] & FLAG_HASH_TREE == FLAG_HASH_TREE),
    {
        self.header.has_flag(FLAG_HASH_TREE)
    }

    /// Refuses to write an image other than a rootfs image to a partition.
    pub fn ensure_rootfs(&self) -> (r: Result<(), Error>)
        requires
            self@.header.metainfo is Some,
        ensures
            self@.header.metainfo->0.image_type == "rootfs"@ ==> r is Ok,
            self@.header.metainfo->0.image_type != "rootfs"@ ==> r == Err::<(), Error>(Error::NotRootfs),
    {
        if !str_eq(self.metainfo().image_type(), "rootfs") {
            return Err(Error::NotRootfs);
        }
        Ok(())
    }

    /// Checks the header signature before the image is mounted through
    /// dm-verity, unless `citadel.nosignatures` is set: there must be a
    /// public key for the image's channel and the signature must verify.
    pub fn check_signature(&self, os_release: &OsRelease, cmdline: &CommandLine) -> (r: Result<(), Error>)
        requires
            self@.header.metainfo is Some,
            metainfo_len_ok(self@.header.bytes),
        ensures
            cmdline@.contains_key("citadel.nosignatures"@) ==> r is Ok,
            !cmdline@.contains_key("citadel.nosignatures"@) ==> match spec_public_key_for_channel(
                self@.header.metainfo->0.channel,
                os_release@,
                cmdline@,
            ) {
                Err(e) => r == Err::<(), Error>(e),
                Ok(None) => r == Err::<(), Error>(Error::NoPublicKey),
                Ok(Some(k)) => if ed25519_verify(
                    k,
                    spec_metainfo_bytes(self@.header.bytes),
                    spec_signature(self@.header.bytes),
                ) {
                    r is Ok
                } else {
                    r == Err::<(), Error>(Error::BadSignature)
                },
            },
    {
        if cmdline.nosignatures() {
            return Ok(());
        }
        match self.header.public_key(os_release, cmdline)? {
            Some(pubkey) => {
                if !self.header.verify_signature(pubkey) {
                    return Err(Error::BadSignature);
                }
                Ok(())
            },
            None => Err(Error::NoPublicKey),
        }
    }

    /// The directory the image is mounted at.
    pub fn mount_path(&self) -> (r: String)
        requires
            self@.header.metainfo is Some,
            self@.header.metainfo->0.image_type == "realmfs"@ ==> self@.header.metainfo->0.realmfs_name is Some,
        ensures
            r@ == spec_mount_path(self@.header.metainfo->0),
    {
        let metainfo = self.metainfo();
        let mut s = to_owned_string(RUN_DIRECTORY);
        push_str(&mut s, "/");
        if str_eq(metainfo.image_type(), "realmfs") {
            match metainfo.realmfs_name() {
                Some(name) => push_str(&mut s, name),
                None => vstd::pervasive::unreached(),
            }
            push_str(&mut s, "-realmfs.mountpoint");
        } else {
            push_str(&mut s, metainfo.image_type());
            push_str(&mut s, ".mountpoint");
        }
        s
    }

    /// The bind mount a line of the image's manifest asks for: the source
    /// under the image's mount path and the target under `/sysroot`.
    pub fn process_manifest_line(&self, line: &str) -> (r: Result<(String, String), Error>)
        requires
            self@.header.metainfo is Some,
            self@.header.metainfo->0.image_type == "realmfs"@ ==> self@.header.metainfo->0.realmfs_name is Some,
        ensures
            match spec_manifest_paths(line@) {
                Ok((from, to)) => r matches Ok(p) && p.0@ == spec_join(
                    spec_mount_path(self@.header.metainfo->0),
                    from,
                ) && p.1@ == spec_join("/sysroot"@, to),
                Err(e) => r matches Err(f) && f == e,
            },
    {
        let (path_from, path_to) = manifest_paths(line)?;
        let base = self.mount_path();
        let from = join(base.as_str(), path_from.as_str());
        let to = join("/sysroot", path_to.as_str());
        Ok((from, to))
    }
}

/// `true` when the header magic is valid.
pub open spec fn spec_magic_valid_header(h: HeaderView) -> bool {
    crate::header::spec_magic_valid(h.bytes)
}

/// The relative source and target paths of a manifest line.
pub fn manifest_paths(line: &str) -> (r: Result<(String, String), Error>)
    ensures
        match spec_manifest_paths(line@) {
            Ok((from, to)) => r matches Ok(p) && p.0@ == from && p.1@ == to,
            Err(e) => r matches Err(f) && f == e,
        },
{
    let l = trim_start_matches(line, "/");
    proof {
        reveal_strlit("/");
        assert("/"@ =~= seq!['/']);
    }
    if contains_char(l.as_str(), ':') {
        let v = split_char(l.as_str(), ':');
        if v.len() != 2 {
            return Err(Error::BadManifestLine);
        }
        assert(strings_view(v@)[0] == v@[0]@);
        assert(strings_view(v@)[1] == v@[1]@);
        let to = trim_start_matches(v[1].as_str(), "/");
        Ok((to_owned_string(v[0].as_str()), to))
    } else {
        let l2 = to_owned_string(l.as_str());
        Ok((l, l2))
    }
}

/// Whether `compare_images` keeps `a` over `b`: `a` has the higher
/// version, or the same version and a file created later.
pub open spec fn spec_compare(a: ResourceView, b: ResourceView) -> bool {
    let va = a.header.metainfo->0.version;
    let vb = b.header.metainfo->0.version;
    if va > vb {
        true
    } else if vb > va {
        false
    } else {
        a.created > b.created
    }
}

/// Of two images, the one with the higher version, or the one whose file
/// was created most recently when the versions are equal (`b` when both
/// are equal). With no `a`, `b`.
pub fn compare_images(a: Option<ResourceImage>, b: ResourceImage) -> (r: ResourceImage)
    requires
        a matches Some(x) ==> x@.header.metainfo is Some,
        b@.header.metainfo is Some,
    ensures
        match a {
            None => r@ == b@,
            Some(x) => if spec_compare(x@, b@) {
                r@ == x@
            } else {
                r@ == b@
            },
        },
{
    let a = match a {
        Some(img) => img,
        None => return b,
    };
    let ver_a = a.metainfo().version();
    let ver_b = b.metainfo().version();
    if ver_a > ver_b {
        a
    } else if ver_b > ver_a {
        b
    } else if a.created > b.created {
        a
    } else {
        b
    }
}

/// Whether an image header matches a search: the channel (when one is
/// given), the image type and, for a kernel image, the kernel version and
/// id.
pub open spec fn spec_image_matches(
    m: MetaInfoView,
    image_type: Seq<char>,
    channel: Option<Seq<char>>,
    kernel_version: Option<Seq<char>>,
    kernel_id: Option<Seq<char>>,
) -> bool {
    &&& (channel matches Some(c) ==> m.channel == c)
    &&& image_type == m.image_type
    &&& (image_type == "kernel"@ ==> m.kernel_version == kernel_version && m.kernel_id == kernel_id)
}

/// Whether the image of `header` matches a search.
pub fn image_matches(
    header: &ImageHeader,
    image_type: &str,
    channel: Option<&str>,
    kernel_version: Option<&str>,
    kernel_id: Option<&str>,
) -> (r: bool)
    requires
        header@.metainfo is Some,
    ensures
        r == spec_image_matches(
            header@.metainfo->0,
            image_type@,
            match channel { Some(c) => Some(c@), None => None },
            match kernel_version { Some(c) => Some(c@), None => None },
            match kernel_id { Some(c) => Some(c@), None => None },
        ),
{
    let metainfo = header.metainfo();
    match channel {
        Some(c) => if !str_eq(metainfo.channel(), c) {
            return false;
        },
        None => {},
    }
    if !str_eq(image_type, metainfo.image_type()) {
        return false;
    }
    if str_eq(image_type, "kernel") {
        if !opt_str_eq(metainfo.kernel_version(), kernel_version) || !opt_str_eq(metainfo.kernel_id(), kernel_id) {
            return false;
        }
    }
    true
}

/// Equality of optional texts.
fn opt_str_eq(a: Option<&str>, b: Option<&str>) -> (r: bool)
    ensures
        r == (match a { Some(x) => Some(x@), None => None } == match b { Some(x) => Some(x@), None => None }),
{
    match (a, b) {
        (Some(x), Some(y)) => str_eq(x, y),
        (None, None) => true,
        _ => false,
    }
}

/// Of the images matching a search, the one to use: with no channel
/// given, the first one; otherwise the best by `compare_images`.
pub fn select_image(images: Vec<ResourceImage>, channel_given: bool) -> (r: Option<ResourceImage>)
    requires
        forall|i: int| 0 <= i < images@.len() ==> (#[trigger] images@[i])@.header.metainfo is Some,
    ensures
        !channel_given ==> match r {
            Some(i) => images@.len() > 0 && i@ == images@[0]@,
            None => images@.len() == 0,
        },
        channel_given ==> match r {
            Some(i) => spec_best(images@.map_values(|x: ResourceImage| x@)) == Some(i@),
            None => images@.len() == 0,
        },
{
    let mut matches = images;
    if !channel_given {
        if matches.len() == 0 {
            return None;
        }
        return Some(matches.remove(0));
    }
    let total = matches.len();
    let ghost all = matches@.map_values(|x: ResourceImage| x@);
    let ghost n = all.len();
    assert(n == total);
    let mut best: Option<ResourceImage> = None;
    let mut i: usize = 0;
    assert(all.skip(0) =~= all);
    while matches.len() > 0
        invariant
            channel_given,
            all == images@.map_values(|x: ResourceImage| x@),
            i <= n,
            n <= usize::MAX,
            all.len() == n,
            best is None <==> i == 0,
            i + matches@.len() == n,
            matches@.map_values(|x: ResourceImage| x@) == all.skip(i as int),
            forall|k: int| 0 <= k < matches@.len() ==> (#[trigger] matches@[k])@.header.metainfo is Some,
            best matches Some(b) ==> b@.header.metainfo is Some,
            spec_best(all) == spec_best_from(match best { Some(b) => Some(b@), None => None }, all.skip(i as int)),
        decreases matches@.len(),
    {
        let ghost before = matches@;
        let image = matches.remove(0);
        proof {
            assert(before[0] == image);
            assert(all.skip(i as int)[0] == image@);
            assert(all.skip(i as int).drop_first() =~= all.skip(i + 1));
            assert(matches@.map_values(|x: ResourceImage| x@) =~= all.skip(i + 1));
            assert forall|k: int| 0 <= k < matches@.len() implies (#[trigger] matches@[k])@.header.metainfo is Some by {
                assert(matches@[k] == before[k + 1]);
            }
        }
        best = Some(compare_images(best, image));
        i += 1;
    }
    assert(all.skip(i as int) =~= Seq::<ResourceView>::empty());
    best
}

/// The outcome of folding `compare_images` over `rest`, starting from `best`.
pub open spec fn spec_best_from(best: Option<ResourceView>, rest: Seq<ResourceView>) -> Option<ResourceView>
    decreases rest.len(),
{
    if rest.len() == 0 {
        best
    } else {
        let b = rest[0];
        let next = match best {
            None => b,
            Some(a) => if spec_compare(a, b) {
                a
            } else {
                b
            },
        };
        spec_best_from(Some(next), rest.drop_first())
    }
}

/// The image `compare_images` keeps of all `images`, in order.
pub open spec fn spec_best(images: Seq<ResourceView>) -> Option<ResourceView> {
    spec_best_from(None, images)
}

/// Image `x` is no newer than image `b`: no higher version, and, when the
/// versions are equal, a file created no later.
pub open spec fn no_newer_than(x: ResourceView, b: ResourceView) -> bool {
    let vx = x.header.metainfo->0.version;
    let vb = b.header.metainfo->0.version;
    &&& vx <= vb
    &&& vx == vb ==> x.created <= b.created
}

/// `b` is one of `seen` and no image of `seen` is newer.
pub open spec fn newest_of(b: ResourceView, seen: Seq<ResourceView>) -> bool {
    &&& seen.contains(b)
    &&& forall|i: int| 0 <= i < seen.len() ==> no_newer_than(#[trigger] seen[i], b)
}

proof fn lemma_best_from(prefix: Seq<ResourceView>, best: Option<ResourceView>, rest: Seq<ResourceView>)
    requires
        best is None ==> prefix.len() == 0,
        best matches Some(b) ==> newest_of(b, prefix),
    ensures
        spec_best_from(best, rest) matches Some(r) ==> newest_of(r, prefix + rest),
        (best is Some || rest.len() > 0) ==> spec_best_from(best, rest) is Some,
    decreases rest.len(),
{
    if rest.len() == 0 {
        assert(prefix + rest =~= prefix);
    } else {
        let x = rest[0];
        let n = match best {
            None => x,
            Some(a) => if spec_compare(a, x) {
                a
            } else {
                x
            },
        };
        let seen = prefix.push(x);
        assert(seen + rest.drop_first() =~= prefix + rest);
        assert(newest_of(n, seen)) by {
            assert(seen[prefix.len() as int] == x);
            match best {
                None => {
                    assert(seen =~= seq![x]);
                },
                Some(a) => {
                    let a_prefix_idx = choose|k: int| 0 <= k < prefix.len() && prefix[k] == a;
                    assert(seen[a_prefix_idx] == a);
                    assert forall|i: int| 0 <= i < seen.len() implies no_newer_than(#[trigger] seen[i], n) by {
                        if i < prefix.len() {
                            assert(seen[i] == prefix[i]);
                            assert(no_newer_than(prefix[i], a));
                        }
                    }
                },
            }
        }
        lemma_best_from(seen, Some(n), rest.drop_first());
    }
}

/// Law: the image chosen among those of a channel is one of them, and none
/// of them is newer: none has a higher version, and among those of the same
/// version none has a file created later. There is a choice whenever there
/// is an image.
pub proof fn law_selected_image_is_newest(images: Seq<ResourceView>)
    ensures
        spec_best(images) matches Some(b) ==> newest_of(b, images),
        images.len() > 0 ==> spec_best(images) is Some,
{
    lemma_best_from(Seq::empty(), None, images);
    assert(Seq::<ResourceView>::empty() + images =~= images);
}

/// The channel of the root filesystem: the channel named on the kernel
/// command line, or `dev`.
pub fn rootfs_channel(cmdline: &CommandLine) -> (r: String)
    ensures
        match spec_channel_name(cmdline@) {
            Some(c) => r@ == c,
            None => r@ == "dev"@,
        },
{
    match cmdline.channel_name() {
        Some(channel) => channel,
        None => to_owned_string("dev"),
    }
}

/// The kernel version of a kernel release name: the text before the first `-`.
pub fn kernel_version_of_release(release: &str) -> (r: String)
    ensures
        r@ == spec_split(release@, '-')[0],
{
    let v = split_char(release, '-');
    proof {
        crate::text::lemma_split_nonempty(release@, '-');
    }
    assert(strings_view(v@)[0] == v@[0]@);
    to_owned_string(v[0].as_str())
}

} // verus!
