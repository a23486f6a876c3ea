//! RealmFS images: naming, the checks on their header, the metainfo
//! documents written for them, and the decisions taken over their files.
//!
//! A RealmFS image is either sealed, with a dm-verity hash tree and a
//! signed header, and always mounted read-only; or unsealed, mounted
//! read-only or read-write by the realm that owns it.
use vstd::prelude::*;

use crate::error::Error;
use crate::header::{
    law_metainfo_roundtrip, law_signature_roundtrip, lemma_with_metainfo_len, overwrite,
    spec_metainfo_bytes, spec_signature, spec_metainfo_len, with_metainfo, HeaderView, ImageHeader, MetaInfo, MetaInfoView,
    MAX_METAINFO_LEN,
};
use crate::keys::{ed25519_public_key_of, ed25519_sign, ed25519_verify, KeyPair};
use vstd::utf8::{encode_scalar, encode_utf8};
use crate::path::{join, spec_join};
use crate::text::{decimal, decimal_string, push_str, str_eq, to_owned_string};
use crate::util::{is_valid_name, spec_is_valid_name};

verus! {

/// Directory where RealmFS images are stored.
pub const BASE_PATH: &'static str = "/storage/realms/realmfs-images";

/// Directory where RealmFS mountpoints are created.
pub const RUN_DIRECTORY: &'static str = "/run/citadel/realmfs";

/// Name of the kernel key, and of the channel, of user sealed images.
pub const USER_KEYNAME: &'static str = "realmfs-user";

/// Longest valid RealmFS name.
pub const MAX_REALMFS_NAME_LEN: usize = 40;

/// Number of backup copies kept when an image is replaced.
pub const NUM_BACKUPS: usize = 2;

/// Whether `name` is a valid RealmFS name: at most 40 characters, an ASCII
/// letter first, then ASCII letters, digits and dashes.
pub fn is_valid_realmfs_name(name: &str) -> (r: bool)
    ensures
        r == spec_is_valid_name(name@, MAX_REALMFS_NAME_LEN as nat),
{
    is_valid_name(name, MAX_REALMFS_NAME_LEN)
}

/// Refuses an invalid RealmFS name.
pub fn validate_name(name: &str) -> (r: Result<(), Error>)
    ensures
        spec_is_valid_name(name@, MAX_REALMFS_NAME_LEN as nat) ==> r == Ok::<(), Error>(()),
        !spec_is_valid_name(name@, MAX_REALMFS_NAME_LEN as nat) ==> r == Err::<(), Error>(Error::InvalidName),
{
    if is_valid_realmfs_name(name) {
        Ok(())
    } else {
        Err(Error::InvalidName)
    }
}

/// The file name of the image called `name`: `<name>-realmfs.img`.
pub open spec fn spec_image_file_name(name: Seq<char>) -> Seq<char> {
    name + "-realmfs.img"@
}

/// The path of the image called `name` in the image directory.
pub fn image_path(name: &str) -> (r: String)
    ensures
        r@ == spec_join(BASE_PATH@, spec_image_file_name(name@)),
{
    let mut f = to_owned_string(name);
    push_str(&mut f, "-realmfs.img");
    join(BASE_PATH, f.as_str())
}

/// The path of backup copy `n` of the image called `name`.
pub fn backup_path(name: &str, n: usize) -> (r: String)
    ensures
        r@ == spec_join(BASE_PATH@, spec_image_file_name(name@) + "."@ + decimal(n as nat)),
{
    let mut f = to_owned_string(name);
    push_str(&mut f, "-realmfs.img");
    push_str(&mut f, ".");
    let d = decimal_string(n as u64);
    push_str(&mut f, d.as_str());
    join(BASE_PATH, f.as_str())
}

/// The renames that shift the backup copies of the image called `name`
/// before it is replaced: copy `i - 1` becomes copy `i`, from the oldest
/// down. The caller renames those that exist, then the image itself to
/// copy 0.
pub fn rotate_plan(name: &str) -> (r: Vec<(String, String)>)
    ensures
        r@.len() == NUM_BACKUPS - 1,
        forall|k: int| 0 <= k < r@.len() ==> {
            let i = NUM_BACKUPS - 1 - k;
            &&& (#[trigger] r@[k]).0@ == spec_join(BASE_PATH@, spec_image_file_name(name@) + "."@ + decimal((i - 1) as nat))
            &&& r@[k].1@ == spec_join(BASE_PATH@, spec_image_file_name(name@) + "."@ + decimal(i as nat))
        },
{
    let mut plan: Vec<(String, String)> = Vec::new();
    let mut i: usize = NUM_BACKUPS - 1;
    while i >= 1
        invariant
            i <= NUM_BACKUPS - 1,
            plan@.len() == NUM_BACKUPS - 1 - i,
            forall|k: int| 0 <= k < plan@.len() ==> {
                let j = NUM_BACKUPS - 1 - k;
                &&& (#[trigger] plan@[k]).0@ == spec_join(BASE_PATH@, spec_image_file_name(name@) + "."@ + decimal((j - 1) as nat))
                &&& plan@[k].1@ == spec_join(BASE_PATH@, spec_image_file_name(name@) + "."@ + decimal(j as nat))
            },
        decreases i,
    {
        let from = backup_path(name, i - 1);
        let to = backup_path(name, i);
        plan.push((from, to));
        i -= 1;
    }
    plan
}

/// What a RealmFS image header must hold: valid magic, the `realmfs` image
/// type and a valid `realmfs-name`.
pub open spec fn spec_check_header(h: HeaderView) -> Result<(), Error> {
    if !crate::header::spec_magic_valid(h.bytes) {
        Err(Error::BadHeader)
    } else if h.metainfo->0.image_type != "realmfs"@ {
        Err(Error::NotRealmfs)
    } else {
        match h.metainfo->0.realmfs_name {
            None => Err(Error::NoRealmfsName),
            Some(n) => if spec_is_valid_name(n, MAX_REALMFS_NAME_LEN as nat) {
                Ok(())
            } else {
                Err(Error::InvalidName)
            },
        }
    }
}

/// Checks the header of a RealmFS image file.
pub fn check_realmfs_header(header: &ImageHeader) -> (r: Result<(), Error>)
    requires
        crate::header::spec_magic_valid(header@.bytes) ==> header@.metainfo is Some,
    ensures
        r == spec_check_header(header@),
{
    if !header.is_magic_valid() {
        return Err(Error::BadHeader);
    }
    let metainfo = header.metainfo();
    if !str_eq(metainfo.image_type(), "realmfs") {
        return Err(Error::NotRealmfs);
    }
    match metainfo.realmfs_name() {
        Some(name) => validate_name(name),
        None => Err(Error::NoRealmfsName),
    }
}

/// The metainfo document of an unsealed image.
pub open spec fn spec_unsealed_metainfo(name: Seq<char>, nblocks: nat, owner: Option<Seq<char>>) -> Seq<char> {
    "image-type = \"realmfs\"\n"@ + "realmfs-name = \""@ + name + "\"\n"@ + "nblocks = "@ + decimal(nblocks)
        + "\n"@ + match owner {
        Some(o) => "realmfs-owner = \""@ + o + "\"\n"@,
        None => Seq::empty(),
    }
}

/// The metainfo document of an unsealed image called `name` of `nblocks`
/// blocks, owned by realm `owner` if any.
pub fn generate_unsealed_metainfo(name: &str, nblocks: usize, owner: Option<&str>) -> (r: String)
    ensures
        r@ == spec_unsealed_metainfo(name@, nblocks as nat, match owner { Some(o) => Some(o@), None => None }),
{
    let mut s = to_owned_string("image-type = \"realmfs\"\n");
    push_str(&mut s, "realmfs-name = \"");
    push_str(&mut s, name);
    push_str(&mut s, "\"\n");
    push_str(&mut s, "nblocks = ");
    let n = decimal_string(nblocks as u64);
    push_str(&mut s, n.as_str());
    push_str(&mut s, "\n");
    let ghost before = s@;
    match owner {
        Some(o) => {
            push_str(&mut s, "realmfs-owner = \"");
            push_str(&mut s, o);
            push_str(&mut s, "\"\n");
            assert(s@ =~= before + ("realmfs-owner = \""@ + o@ + "\"\n"@));
        },
        None => {
            assert(s@ =~= before + Seq::<char>::empty());
        },
    }
    s
}

/// The metainfo document of a user sealed image.
pub open spec fn spec_sealed_metainfo(name: Seq<char>, nblocks: nat, salt: Seq<char>, root: Seq<char>) -> Seq<char> {
    spec_unsealed_metainfo(name, nblocks, None) + "channel = \""@ + USER_KEYNAME@ + "\"\n"@ + "verity-salt = \""@
        + salt + "\"\n"@ + "verity-root = \""@ + root + "\"\n"@
}

/// The metainfo document of an image called `name` of `nblocks` blocks,
/// sealed with the user keys, verity salt `salt` and root hash `root`.
pub fn generate_sealed_metainfo(name: &str, nblocks: usize, salt: &str, root: &str) -> (r: String)
    ensures
        r@ == spec_sealed_metainfo(name@, nblocks as nat, salt@, root@),
{
    let mut s = generate_unsealed_metainfo(name, nblocks, None);
    push_str(&mut s, "channel = \"");
    push_str(&mut s, USER_KEYNAME);
    push_str(&mut s, "\"\n");
    push_str(&mut s, "verity-salt = \"");
    push_str(&mut s, salt);
    push_str(&mut s, "\"\n");
    push_str(&mut s, "verity-root = \"");
    push_str(&mut s, root);
    push_str(&mut s, "\"\n");
    s
}

/// The metainfo fields of the sealed document `spec_sealed_metainfo`.
pub open spec fn sealed_metainfo_view(name: Seq<char>, nblocks: u32, salt: Seq<char>, root: Seq<char>) -> MetaInfoView {
    MetaInfoView {
        image_type: "realmfs"@,
        channel: USER_KEYNAME@,
        kernel_version: None,
        kernel_id: None,
        realmfs_name: Some(name),
        realmfs_owner: None,
        version: 0,
        timestamp: ""@,
        nblocks,
        shasum: ""@,
        verity_salt: salt,
        verity_root: root,
    }
}

/// The bytes of the header block of an image sealed from `bytes`: the hash
/// tree flag set, the metainfo document `doc` and, after it, `sig`.
pub open spec fn spec_sealed_block(bytes: Seq<u8>, doc: Seq<u8>, sig: Seq<u8>) -> Seq<u8> {
    overwrite(
        with_metainfo(bytes.update(5, bytes[5] | ImageHeader::FLAG_HASH_TREE), doc),
        8 + doc.len() as int,
        sig,
    )
}

/// Makes `header` the header of the image sealed as RealmFS `name` with
/// verity salt `verity_salt` and root hash `verity_root`: the hash tree flag
/// is set, the metainfo becomes the sealed document for the image's block
/// count, and the document is signed with `keys`. Refused, leaving the
/// header as it was, when the document does not fit in the header.
pub fn seal_header(header: &mut ImageHeader, name: &str, verity_salt: &str, verity_root: &str, keys: &KeyPair) -> (r: Result<(), Error>)
    requires
        old(header)@.metainfo is Some,
    ensures
        ({
            let nb = old(header)@.metainfo.unwrap().nblocks;
            let doc = encode_utf8(spec_sealed_metainfo(name@, nb as nat, verity_salt@, verity_root@));
            &&& r is Ok <==> doc.len() < MAX_METAINFO_LEN
            &&& r is Ok ==> {
                &&& final(header)@.bytes == spec_sealed_block(old(header)@.bytes, doc, ed25519_sign(keys@, doc))
                &&& final(header)@.metainfo == Some(sealed_metainfo_view(name@, nb, verity_salt@, verity_root@))
                &&& final(header)@.timestamp == old(header)@.timestamp
                &&& spec_metainfo_bytes(final(header)@.bytes) == doc
                &&& spec_signature(final(header)@.bytes) == ed25519_sign(keys@, doc)
                &&& ed25519_verify(ed25519_public_key_of(keys@), doc, ed25519_sign(keys@, doc))
                &&& final(header)@.bytes[5] == old(header)@.bytes[5] | ImageHeader::FLAG_HASH_TREE
            }
            &&& r is Err ==> r == Err::<(), Error>(Error::BadMetainfo) && final(header)@ == old(header)@
        }),
{
    let nblocks = header.metainfo().nblocks();
    let doc = generate_sealed_metainfo(name, nblocks, verity_salt, verity_root);
    let bytes = doc.as_str().as_bytes();
    if bytes.len() >= MAX_METAINFO_LEN {
        return Err(Error::BadMetainfo);
    }
    let meta = MetaInfo::new(
        to_owned_string("realmfs"),
        to_owned_string(USER_KEYNAME),
        None,
        None,
        Some(to_owned_string(name)),
        None,
        0,
        String::new(),
        nblocks as u32,
        String::new(),
        to_owned_string(verity_salt),
        to_owned_string(verity_root),
    );
    let sig = keys.sign(bytes);
    proof {
        reveal_strlit("");
        assert(""@ =~= Seq::<char>::empty());
        assert(meta@.nblocks == header@.metainfo.unwrap().nblocks);
        assert(meta@ == sealed_metainfo_view(name@, header@.metainfo.unwrap().nblocks, verity_salt@, verity_root@));
    }
    proof {
        header.lemma_bytes_len();
    }
    let ghost before = header@.bytes;
    header.set_flag(ImageHeader::FLAG_HASH_TREE);
    proof {
        header.lemma_bytes_len();
    }
    let ghost flagged = header@.bytes;
    match header.set_metainfo_bytes(bytes, Some(meta)) {
        Ok(()) => {},
        Err(_) => vstd::pervasive::unreached(),
    }
    assert(spec_metainfo_len(header@.bytes) == bytes@.len()) by {
        header.lemma_bytes_len();
        lemma_with_metainfo_len(flagged, bytes@);
    }
    match header.set_signature(sig.to_bytes()) {
        Ok(()) => {},
        Err(_) => vstd::pervasive::unreached(),
    }
    assert(flagged == before.update(5, before[5] | ImageHeader::FLAG_HASH_TREE));
    proof {
        assert(doc@.len() > 0) by {
            reveal_strlit("image-type = \"realmfs\"\n");
        }
        assert(bytes@.len() > 0) by {
            assert(bytes@ == encode_utf8(doc@));
            assert(encode_utf8(doc@) == encode_scalar(doc@[0] as u32) + encode_utf8(doc@.drop_first()));
        }
        law_metainfo_roundtrip(flagged, bytes@);
        law_signature_roundtrip(with_metainfo(flagged, bytes@), sig@);
        let w = with_metainfo(flagged, bytes@);
        assert(w[5] == flagged[5]);
        assert(overwrite(w, 8 + bytes@.len() as int, sig@)[5] == w.take(8 + bytes@.len() as int)[5]);
    }
    assert(header@.bytes == spec_sealed_block(before, bytes@, sig@));
    Ok(())
}

/// An image is sealed when its metainfo has a verity root hash.
pub open spec fn spec_is_sealed(m: MetaInfoView) -> bool {
    m.verity_root.len() > 0
}

/// Whether an image is sealed.
pub fn is_sealed(header: &ImageHeader) -> (r: bool)
    requires
        header@.metainfo is Some,
    ensures
        r == spec_is_sealed(header@.metainfo->0),
{
    let root = header.metainfo().verity_root();
    !root.is_empty()
}

/// Whether an image belongs to the user: unsealed, or sealed with the user keys.
pub fn is_user_realmfs(header: &ImageHeader) -> (r: bool)
    requires
        header@.metainfo is Some,
    ensures
        r == (!spec_is_sealed(header@.metainfo->0) || header@.metainfo->0.channel == USER_KEYNAME@),
{
    !is_sealed(header) || str_eq(header.metainfo().channel(), USER_KEYNAME)
}

/// The size of an image file in blocks, header block included, as its
/// metainfo gives it.
pub fn metainfo_nblocks(header: &ImageHeader) -> (r: usize)
    requires
        header@.metainfo is Some,
        header@.metainfo->0.nblocks < usize::MAX,
    ensures
        r == header@.metainfo->0.nblocks + 1,
{
    header.metainfo().nblocks() + 1
}

/// The length in blocks of an image file of `len` bytes, refused when it
/// is not a whole number of blocks or is shorter than the metainfo says
/// (`meta_nblocks` blocks plus the header).
pub fn file_nblocks(len: usize, meta_nblocks: usize) -> (r: Result<usize, Error>)
    ensures
        len % 4096 != 0 ==> r == Err::<usize, Error>(Error::BadFileSize),
        len % 4096 == 0 && len / 4096 < meta_nblocks + 1 ==> r == Err::<usize, Error>(Error::FileTooShort),
        len % 4096 == 0 && len / 4096 >= meta_nblocks + 1 ==> r == Ok::<usize, Error>(len / 4096),
{
    if len % 4096 != 0 {
        return Err(Error::BadFileSize);
    }
    let n: usize = len / 4096;
    if (n as u128) < (meta_nblocks as u128) + 1 {
        return Err(Error::FileTooShort);
    }
    Ok(n)
}

/// What removing the hash tree of an image does.
#[derive(Debug, Clone, Copy, PartialEq, Eq, Structural)]
pub enum TruncateAction {
    /// Clear the hash tree flag and cut the file to this many bytes.
    Truncate(u64),
    /// The file is longer than its metainfo says but has no hash tree flag.
    WarnLonger,
    /// Nothing to do.
    Nothing,
}

/// What removing the hash tree of an image does: with the hash tree flag
/// set, cut the file to the `expected` blocks of the metainfo; otherwise
/// only note a file longer than that.
pub fn truncate_verity_action(has_verity_tree: bool, file_nblocks: usize, expected: usize) -> (r: TruncateAction)
    requires
        expected * 4096 <= u64::MAX,
    ensures
        has_verity_tree ==> r == TruncateAction::Truncate((expected * 4096) as u64),
        !has_verity_tree && file_nblocks > expected ==> r == TruncateAction::WarnLonger,
        !has_verity_tree && file_nblocks <= expected ==> r == TruncateAction::Nothing,
{
    if has_verity_tree {
        TruncateAction::Truncate((expected as u64) * 4096)
    } else if file_nblocks > expected {
        TruncateAction::WarnLonger
    } else {
        TruncateAction::Nothing
    }
}

/// Refuses to activate an unsealed image in sealed mode, unless it is the
/// working copy of an update.
pub fn check_activate(sealed_mode: bool, image_sealed: bool, is_update_copy: bool) -> (r: Result<(), Error>)
    ensures
        sealed_mode && !image_sealed && !is_update_copy ==> r == Err::<(), Error>(Error::SealedMode),
        !(sealed_mode && !image_sealed && !is_update_copy) ==> r is Ok,
{
    if sealed_mode && !image_sealed && !is_update_copy {
        Err(Error::SealedMode)
    } else {
        Ok(())
    }
}

/// Refuses to change the metainfo of a sealed image.
pub fn check_unsealed(image_sealed: bool) -> (r: Result<(), Error>)
    ensures
        image_sealed ==> r == Err::<(), Error>(Error::Sealed),
        !image_sealed ==> r is Ok,
{
    if image_sealed {
        Err(Error::Sealed)
    } else {
        Ok(())
    }
}

} // verus!
