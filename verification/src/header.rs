//! The image header: a 4096 byte block stored at the start of every resource
//! image file, and at the last 4096 bytes of a partition an image was
//! installed to.
//!
//! Layout:
//!
//! ```text
//!    field     size (bytes)        offset
//!    -----     ------------        ------
//!    magic        4                  0
//!    status       1                  4
//!    flags        1                  5
//!    length       2                  6
//!    metainfo  <length>              8
//!    signature    64              8 + length
//! ```
//!
//! `magic` must be the ASCII bytes `SGOS`; `length` is the size of the
//! metainfo document as a 16-bit big endian value; the metainfo is a UTF-8
//! TOML document describing the image; the signature is an ed25519
//! signature over the metainfo bytes.
use vstd::prelude::*;

use crate::cmdline::CommandLine;
use crate::config::OsRelease;
use crate::error::Error;
use crate::keys::{
    ed25519_verify, key_result_view, public_key_for_channel, spec_public_key_for_channel,
    PublicKey,
};
use crate::text::{decimal, decimal_string, push_str, to_owned_string};

verus! {

/// Size of the header block.
pub const HEADER_SIZE: usize = 4096;

/// Offset into the header of the start of the metainfo document.
pub const METAINFO_OFFSET: usize = 8;

/// Length of a signature.
pub const SIGNATURE_LENGTH: usize = 64;

/// Maximum space in the block for the metainfo document.
pub const MAX_METAINFO_LEN: usize = 4024;

/// The expected magic bytes, `SGOS`.
pub open spec fn magic() -> Seq<u8> {
    seq![0x53u8, 0x47u8, 0x4fu8, 0x53u8]
}

/// `true` for the status codes that have a label.
pub open spec fn spec_is_valid_status_code(code: u8) -> bool {
    code <= 6
}

fn is_valid_status_code(code: u8) -> (r: bool)
    ensures
        r == spec_is_valid_status_code(code),
{
    code <= ImageHeader::STATUS_BAD_META
}

/// Big endian 16-bit value at `idx`.
pub open spec fn be_u16(bytes: Seq<u8>, idx: int) -> u16 {
    (bytes[idx] as nat * 256 + bytes[idx + 1] as nat) as u16
}

/// `bytes` with `data` written at `offset`.
pub open spec fn overwrite(bytes: Seq<u8>, offset: int, data: Seq<u8>) -> Seq<u8> {
    bytes.take(offset) + data + bytes.skip(offset + data.len())
}

/// `bytes` with the big endian encoding of `val` written at `idx`.
pub open spec fn write_be_u16(bytes: Seq<u8>, idx: int, val: u16) -> Seq<u8> {
    bytes.update(idx, (val / 256) as u8).update(idx + 1, (val % 256) as u8)
}

/// The 4096 bytes of a header block.
struct HeaderBytes([u8; 4096]);

impl HeaderBytes {
    spec fn view(&self) -> Seq<u8> {
        self.0@
    }

    fn new() -> (hb: Self)
        ensures
            hb.view() == Seq::new(4096, |i: int| 0u8),
    {
        let hb = HeaderBytes([0u8; 4096]);
        assert(hb.view() =~= Seq::new(4096, |i: int| 0u8));
        hb
    }

    fn create_empty() -> (hb: Self)
        ensures
            hb.view() == empty_header_bytes(),
    {
        let mut buffer = HeaderBytes::new();
        buffer.clear();
        buffer
    }

    fn create_from_slice(slice: &[u8]) -> (hb: Self)
        requires
            slice@.len() == HEADER_SIZE,
        ensures
            hb.view() == slice@,
    {
        let mut buffer = HeaderBytes::new();
        let mut i: usize = 0;
        while i < 4096
            invariant
                i <= 4096,
                slice@.len() == 4096,
                buffer.view().len() == 4096,
                forall|j: int| 0 <= j < i ==> buffer.view()[j] == slice@[j],
            decreases 4096 - i,
        {
            buffer.0[i] = slice[i];
            i += 1;
        }
        assert(buffer.view() =~= slice@);
        buffer
    }

    fn clear(&mut self)
        ensures
            final(self).view() == empty_header_bytes(),
    {
        let mut i: usize = 0;
        while i < 4096
            invariant
                i <= 4096,
                self.view().len() == 4096,
                forall|j: int| 0 <= j < i ==> self.view()[j] == 0u8,
            decreases 4096 - i,
        {
            self.0[i] = 0;
            i += 1;
        }
        self.write_bytes(0, &[0x53u8, 0x47u8, 0x4fu8, 0x53u8]);
        assert(self.view() =~= empty_header_bytes());
    }

    fn read_u8(&self, idx: usize) -> (r: u8)
        requires
            idx < HEADER_SIZE,
        ensures
            r == self.view()[idx as int],
    {
        self.0[idx]
    }

    fn write_u8(&mut self, idx: usize, val: u8)
        requires
            idx < HEADER_SIZE,
        ensures
            final(self).view() == old(self).view().update(idx as int, val),
    {
        self.0[idx] = val;
    }

    fn read_u16(&self, idx: usize) -> (r: u16)
        requires
            idx + 1 < HEADER_SIZE,
        ensures
            r == be_u16(self.view(), idx as int),
    {
        let hi = self.read_u8(idx) as u16;
        let lo = self.read_u8(idx + 1) as u16;
        assert((hi << 8u16) | lo == hi * 256 + lo) by (bit_vector)
            requires
                hi < 256,
                lo < 256,
        ;
        (hi << 8) | lo
    }

    fn write_u16(&mut self, idx: usize, val: u16)
        requires
            idx + 1 < HEADER_SIZE,
        ensures
            final(self).view() == write_be_u16(old(self).view(), idx as int, val),
    {
        let hi = (val >> 8) as u8;
        let lo = val as u8;
        assert(((val >> 8u16) as u8) == val / 256 && (val as u8) == val % 256) by (bit_vector);
        self.write_u8(idx, hi);
        self.write_u8(idx + 1, lo);
    }

    fn set_metainfo_len(&mut self, len: usize)
        ensures
            final(self).view() == write_be_u16(old(self).view(), 6, (len % 65536) as u16),
    {
        assert((len as u16) == len % 65536) by (bit_vector);
        self.write_u16(6, len as u16);
    }

    fn write_bytes(&mut self, offset: usize, data: &[u8])
        requires
            offset + data@.len() <= HEADER_SIZE,
        ensures
            final(self).view() == overwrite(old(self).view(), offset as int, data@),
    {
        let ghost before = self.view();
        let mut i: usize = 0;
        while i < data.len()
            invariant
                offset + data@.len() <= 4096,
                i <= data@.len(),
                self.view().len() == 4096,
                forall|j: int| 0 <= j < i ==> self.view()[offset + j] == data@[j],
                forall|j: int|
                    0 <= j < 4096 && !(offset <= j < offset + i) ==> self.view()[j] == before[j],
            decreases data@.len() - i,
        {
            self.0[offset + i] = data[i];
            i += 1;
        }
        assert(self.view() =~= overwrite(before, offset as int, data@));
    }

    fn read_bytes(&self, offset: usize, len: usize) -> (r: Vec<u8>)
        requires
            offset + len <= HEADER_SIZE,
        ensures
            r@ == self.view().subrange(offset as int, offset + len),
    {
        let mut v: Vec<u8> = Vec::new();
        let mut i: usize = 0;
        while i < len
            invariant
                offset + len <= 4096,
                i <= len,
                self.view().len() == 4096,
                v@ == self.view().subrange(offset as int, offset + i),
            decreases len - i,
        {
            v.push(self.0[offset + i]);
            assert(self.view().subrange(offset as int, offset + i + 1) =~= self.view().subrange(
                offset as int,
                offset + i,
            ).push(self.view()[offset + i]));
            i += 1;
        }
        v
    }
}

/// The bytes of a freshly created header: the magic followed by zeros.
pub open spec fn empty_header_bytes() -> Seq<u8> {
    magic() + Seq::new(4092, |i: int| 0u8)
}

/// Model of the metainfo document of an image.
pub struct MetaInfoView {
    pub image_type: Seq<char>,
    pub channel: Seq<char>,
    pub kernel_version: Option<Seq<char>>,
    pub kernel_id: Option<Seq<char>>,
    pub realmfs_name: Option<Seq<char>>,
    pub realmfs_owner: Option<Seq<char>>,
    pub version: u32,
    pub timestamp: Seq<char>,
    pub nblocks: u32,
    pub shasum: Seq<char>,
    pub verity_salt: Seq<char>,
    pub verity_root: Seq<char>,
}

/// The fields of the metainfo document of an image.
#[derive(Clone)]
pub struct MetaInfo {
    image_type: String,
    channel: String,
    kernel_version: Option<String>,
    kernel_id: Option<String>,
    realmfs_name: Option<String>,
    realmfs_owner: Option<String>,
    version: u32,
    timestamp: String,
    nblocks: u32,
    shasum: String,
    verity_salt: String,
    verity_root: String,
}

pub open spec fn opt_view(o: Option<String>) -> Option<Seq<char>> {
    match o {
        Some(s) => Some(s@),
        None => None,
    }
}

impl View for MetaInfo {
    type V = MetaInfoView;

    closed spec fn view(&self) -> MetaInfoView {
        MetaInfoView {
            image_type: self.image_type@,
            channel: self.channel@,
            kernel_version: opt_view(self.kernel_version),
            kernel_id: opt_view(self.kernel_id),
            realmfs_name: opt_view(self.realmfs_name),
            realmfs_owner: opt_view(self.realmfs_owner),
            version: self.version,
            timestamp: self.timestamp@,
            nblocks: self.nblocks,
            shasum: self.shasum@,
            verity_salt: self.verity_salt@,
            verity_root: self.verity_root@,
        }
    }
}

fn opt_str(arg: &Option<String>) -> (r: Option<&str>)
    ensures
        match r {
            Some(s) => opt_view(*arg) == Some(s@),
            None => arg is None,
        },
{
    match arg {
        Some(s) => Some(s.as_str()),
        None => None,
    }
}

impl MetaInfo {
    /// A metainfo document with the given fields.
    pub fn new(
        image_type: String,
        channel: String,
        kernel_version: Option<String>,
        kernel_id: Option<String>,
        realmfs_name: Option<String>,
        realmfs_owner: Option<String>,
        version: u32,
        timestamp: String,
        nblocks: u32,
        shasum: String,
        verity_salt: String,
        verity_root: String,
    ) -> (m: MetaInfo)
        ensures
            m@ == (MetaInfoView {
                image_type: image_type@,
                channel: channel@,
                kernel_version: opt_view(kernel_version),
                kernel_id: opt_view(kernel_id),
                realmfs_name: opt_view(realmfs_name),
                realmfs_owner: opt_view(realmfs_owner),
                version,
                timestamp: timestamp@,
                nblocks,
                shasum: shasum@,
                verity_salt: verity_salt@,
                verity_root: verity_root@,
            }),
    {
        MetaInfo {
            image_type,
            channel,
            kernel_version,
            kernel_id,
            realmfs_name,
            realmfs_owner,
            version,
            timestamp,
            nblocks,
            shasum,
            verity_salt,
            verity_root,
        }
    }

    pub fn image_type(&self) -> (r: &str)
        ensures
            r@ == self@.image_type,
    {
        self.image_type.as_str()
    }

    pub fn channel(&self) -> (r: &str)
        ensures
            r@ == self@.channel,
    {
        self.channel.as_str()
    }

    pub fn kernel_version(&self) -> (r: Option<&str>)
        ensures
            match r {
                Some(s) => self@.kernel_version == Some(s@),
                None => self@.kernel_version is None,
            },
    {
        opt_str(&self.kernel_version)
    }

    pub fn kernel_id(&self) -> (r: Option<&str>)
        ensures
            match r {
                Some(s) => self@.kernel_id == Some(s@),
                None => self@.kernel_id is None,
            },
    {
        opt_str(&self.kernel_id)
    }

    pub fn realmfs_name(&self) -> (r: Option<&str>)
        ensures
            match r {
                Some(s) => self@.realmfs_name == Some(s@),
                None => self@.realmfs_name is None,
            },
    {
        opt_str(&self.realmfs_name)
    }

    pub fn realmfs_owner(&self) -> (r: Option<&str>)
        ensures
            match r {
                Some(s) => self@.realmfs_owner == Some(s@),
                None => self@.realmfs_owner is None,
            },
    {
        opt_str(&self.realmfs_owner)
    }

    pub fn version(&self) -> (r: u32)
        ensures
            r == self@.version,
    {
        self.version
    }

    pub fn timestamp(&self) -> (r: &str)
        ensures
            r@ == self@.timestamp,
    {
        self.timestamp.as_str()
    }

    pub fn nblocks(&self) -> (r: usize)
        ensures
            r == self@.nblocks,
    {
        self.nblocks as usize
    }

    pub fn shasum(&self) -> (r: &str)
        ensures
            r@ == self@.shasum,
    {
        self.shasum.as_str()
    }

    pub fn verity_root(&self) -> (r: &str)
        ensures
            r@ == self@.verity_root,
    {
        self.verity_root.as_str()
    }

    pub fn verity_salt(&self) -> (r: &str)
        ensures
            r@ == self@.verity_salt,
    {
        self.verity_salt.as_str()
    }

    /// The first eight characters of the verity root hash.
    pub fn verity_tag(&self) -> (r: String)
        ensures
            r@ == self@.verity_root.take(if self@.verity_root.len() < 8 {
                self@.verity_root.len() as int
            } else {
                8
            }),
    {
        let v = crate::text::chars_of(self.verity_root.as_str());
        let n = if v.len() < 8 {
            v.len()
        } else {
            8
        };
        let r = crate::text::string_from_range(&v, 0, n);
        assert(v@.subrange(0, n as int) =~= v@.take(n as int));
        r
    }
}

/// Model of an image header.
pub struct HeaderView {
    /// The 4096 bytes of the header block.
    pub bytes: Seq<u8>,
    /// The parsed metainfo document, if one was loaded.
    pub metainfo: Option<MetaInfoView>,
    /// Modification time of the file the header was read from.
    pub timestamp: i64,
}

/// The label of a status code.
pub open spec fn spec_status_label(code: u8) -> Seq<char> {
    if code == 0 {
        "Invalid"@
    } else if code == 1 {
        "New"@
    } else if code == 2 {
        "Try Boot"@
    } else if code == 3 {
        "Good"@
    } else if code == 4 {
        "Failed Boot"@
    } else if code == 5 {
        "Bad Signature"@
    } else if code == 6 {
        "Bad Metainfo"@
    } else {
        "Invalid status code: "@ + decimal(code as nat)
    }
}

/// Length of the metainfo document recorded in `bytes`.
pub open spec fn spec_metainfo_len(bytes: Seq<u8>) -> int {
    be_u16(bytes, 6) as int
}

/// The metainfo document length is in the range that the header accepts.
pub open spec fn metainfo_len_ok(bytes: Seq<u8>) -> bool {
    0 < spec_metainfo_len(bytes) < MAX_METAINFO_LEN
}

/// The metainfo bytes recorded in `bytes`.
pub open spec fn spec_metainfo_bytes(bytes: Seq<u8>) -> Seq<u8> {
    bytes.subrange(8, 8 + spec_metainfo_len(bytes))
}

/// The signature bytes recorded in `bytes`.
pub open spec fn spec_signature(bytes: Seq<u8>) -> Seq<u8> {
    bytes.subrange(8 + spec_metainfo_len(bytes), 8 + spec_metainfo_len(bytes) + 64)
}

/// `bytes` starts with the magic value.
pub open spec fn spec_magic_valid(bytes: Seq<u8>) -> bool {
    bytes.subrange(0, 4) == magic()
}

/// `bytes` with the metainfo region replaced by `data`: everything from
/// offset 8 is cleared, the length field is set and the data written.
pub open spec fn with_metainfo(bytes: Seq<u8>, data: Seq<u8>) -> Seq<u8> {
    write_be_u16(bytes.take(8), 6, (data.len() % 65536) as u16) + data + Seq::new(
        (4088 - data.len()) as nat,
        |i: int| 0u8,
    )
}

/// An image header: the header block and the metainfo document parsed from it.
pub struct ImageHeader {
    buffer: HeaderBytes,
    metainfo: Option<MetaInfo>,
    timestamp: i64,
}

impl View for ImageHeader {
    type V = HeaderView;

    closed spec fn view(&self) -> HeaderView {
        HeaderView {
            bytes: self.buffer.view(),
            metainfo: match self.metainfo {
                Some(m) => Some(m@),
                None => None,
            },
            timestamp: self.timestamp,
        }
    }
}

impl ImageHeader {
    /// Every header block is `HEADER_SIZE` bytes long.
    pub proof fn lemma_bytes_len(&self)
        ensures
            self@.bytes.len() == HEADER_SIZE,
    {
    }

    /// Set to override the usual strategy for choosing a partition to boot and force this one.
    pub const FLAG_PREFER_BOOT: u8 = 0x01;

    /// dm-verity hash tree data is appended to the image.
    pub const FLAG_HASH_TREE: u8 = 0x02;

    /// The image data is compressed and needs to be uncompressed before use.
    pub const FLAG_DATA_COMPRESSED: u8 = 0x04;

    /// Set on partition before writing a new rootfs disk image.
    pub const STATUS_INVALID: u8 = 0;

    /// Set on partition after write of new rootfs disk image completes successfully.
    pub const STATUS_NEW: u8 = 1;

    /// Set on boot selected partition if in `STATUS_NEW` state.
    pub const STATUS_TRY_BOOT: u8 = 2;

    /// Set on boot when a `STATUS_TRY_BOOT` partition successfully launches desktop.
    pub const STATUS_GOOD: u8 = 3;

    /// Set on boot for any partition in state `STATUS_TRY_BOOT`.
    pub const STATUS_FAILED: u8 = 4;

    /// Set on boot selected partition when signature fails to verify.
    pub const STATUS_BAD_SIG: u8 = 5;

    /// Set on partition when metainfo cannot be parsed.
    pub const STATUS_BAD_META: u8 = 6;

    /// Size of header block.
    pub const HEADER_SIZE: usize = 4096;

    /// An empty header: the magic followed by zeros, without metainfo.
    pub fn new() -> (h: Self)
        ensures
            h@.bytes == empty_header_bytes(),
            h@.metainfo is None,
            h@.timestamp == 0,
    {
        ImageHeader { buffer: HeaderBytes::create_empty(), metainfo: None, timestamp: 0 }
    }

    /// Builds a header from the 4096 bytes of a header block. When the magic
    /// is valid, `parsed` is the metainfo document parsed from the metainfo
    /// bytes of the block (`None` if it could not be parsed).
    pub fn from_slice(slice: &[u8], parsed: Option<MetaInfo>) -> (r: Result<Self, Error>)
        requires
            slice@.len() == HEADER_SIZE,
            spec_magic_valid(slice@) ==> metainfo_len_ok(slice@),
        ensures
            match r {
                Ok(h) => {
                    &&& h@.bytes == slice@
                    &&& h@.timestamp == 0
                    &&& spec_magic_valid(slice@) ==> parsed is Some && h@.metainfo == Some(
                        parsed.unwrap()@,
                    )
                    &&& !spec_magic_valid(slice@) ==> h@.metainfo is None
                },
                Err(e) => e == Error::BadMetainfo && spec_magic_valid(slice@) && parsed is None,
            },
    {
        let buffer = HeaderBytes::create_from_slice(slice);
        let mut header = ImageHeader { buffer, metainfo: None, timestamp: 0 };
        header.load_metainfo_if_magic_valid(parsed)?;
        Ok(header)
    }

    fn load_metainfo_if_magic_valid(&mut self, parsed: Option<MetaInfo>) -> (r: Result<(), Error>)
        requires
            old(self)@.metainfo is None,
            spec_magic_valid(old(self)@.bytes) ==> metainfo_len_ok(old(self)@.bytes),
        ensures
            final(self)@.bytes == old(self)@.bytes,
            final(self)@.timestamp == old(self)@.timestamp,
            match r {
                Ok(()) => {
                    &&& spec_magic_valid(old(self)@.bytes) ==> parsed is Some && final(self)@.metainfo == Some(parsed.unwrap()@)
                    &&& !spec_magic_valid(old(self)@.bytes) ==> final(self)@.metainfo is None
                },
                Err(e) => e == Error::BadMetainfo && spec_magic_valid(old(self)@.bytes)
                    && parsed is None,
            },
    {
        if !self.is_magic_valid() {
            return Ok(());
        }
        match parsed {
            Some(m) => {
                self.metainfo = Some(m);
                Ok(())
            },
            None => Err(Error::BadMetainfo),
        }
    }

    /// The first sector of the header on a block device of `nsectors`
    /// sectors of 512 bytes: the header fills the last 8 sectors. A device of
    /// fewer than 8 sectors cannot hold one.
    pub fn header_sector(nsectors: u64) -> (r: Result<u64, Error>)
        ensures
            nsectors >= 8 ==> r == Ok::<u64, Error>((nsectors - 8) as u64),
            nsectors < 8 ==> r == Err::<u64, Error>(Error::DeviceTooShort),
    {
        if nsectors < 8 {
            Err(Error::DeviceTooShort)
        } else {
            Ok(nsectors - 8)
        }
    }

    /// Returns `true` if `mtime`, the modification time of the file the
    /// header came from, differs from the recorded one, and records `mtime`.
    pub fn is_stale(&mut self, mtime: i64) -> (r: bool)
        ensures
            r == (old(self)@.timestamp != mtime),
            final(self)@.timestamp == mtime,
            final(self)@.bytes == old(self)@.bytes,
            final(self)@.metainfo == old(self)@.metainfo,
    {
        let stale = self.timestamp != mtime;
        self.timestamp = mtime;
        stale
    }

    /// Whether the file the header came from has changed: its modification
    /// time `mtime` differs from the recorded one. Nothing is recorded, so
    /// that a reload that fails is tried again.
    pub fn needs_reload(&self, mtime: i64) -> (r: bool)
        ensures
            r == spec_needs_reload(self@, mtime),
    {
        self.timestamp != mtime
    }

    /// Replaces the bytes and metainfo of this header by those of `other`,
    /// read from the file at modification time `mtime`, which is recorded.
    pub fn reload_from(&mut self, other: ImageHeader, mtime: i64)
        ensures
            final(self)@ == spec_reloaded(old(self)@, other@, mtime),
    {
        self.buffer = other.buffer;
        self.metainfo = other.metainfo;
        self.timestamp = mtime;
    }

    /// Takes in the outcome of rereading the file the header came from,
    /// modified at `mtime` (which the caller rereads only when
    /// `needs_reload(mtime)`). With the reread header `fresh`, the header
    /// takes its bytes and metainfo and records `mtime`, and `true` is
    /// returned. When the reread failed (`None`) the header is unchanged and
    /// `mtime` is not recorded, so that the next check tries again.
    pub fn reload_with(&mut self, mtime: i64, fresh: Option<ImageHeader>) -> (r: bool)
        ensures
            match fresh {
                Some(f) => r && final(self)@ == spec_reloaded(old(self)@, f@, mtime),
                None => !r && final(self)@ == old(self)@,
            },
    {
        match fresh {
            Some(f) => {
                self.reload_from(f, mtime);
                true
            },
            None => false,
        }
    }

    /// The length of the metainfo document of a header block: `None` when
    /// the block does not start with the magic value (it holds no
    /// document), `BadMetainfo` when the recorded length is out of range.
    /// The document lies at offset 8.
    pub fn block_metainfo_len(block: &[u8]) -> (r: Result<Option<usize>, Error>)
        requires
            block@.len() == HEADER_SIZE,
        ensures
            !spec_magic_valid(block@) ==> r == Ok::<Option<usize>, Error>(None),
            spec_magic_valid(block@) && metainfo_len_ok(block@) ==> r == Ok::<Option<usize>, Error>(
                Some(spec_metainfo_len(block@) as usize),
            ),
            spec_magic_valid(block@) && !metainfo_len_ok(block@) ==> r == Err::<Option<usize>, Error>(
                Error::BadMetainfo,
            ),
    {
        let h = ImageHeader { buffer: HeaderBytes::create_from_slice(block), metainfo: None, timestamp: 0 };
        if !h.is_magic_valid() {
            return Ok(None);
        }
        let mlen = h.metainfo_len();
        if mlen == 0 || mlen >= MAX_METAINFO_LEN {
            return Err(Error::BadMetainfo);
        }
        Ok(Some(mlen))
    }

    /// The metainfo document. The header must have one.
    pub fn metainfo(&self) -> (r: &MetaInfo)
        requires
            self@.metainfo is Some,
        ensures
            self@.metainfo == Some(r@),
    {
        match &self.metainfo {
            Some(m) => m,
            None => vstd::pervasive::unreached(),
        }
    }

    /// The public key for the channel of the image, if one is known.
    pub fn public_key(&self, os_release: &OsRelease, cmdline: &CommandLine) -> (r: Result<Option<PublicKey>, Error>)
        requires
            self@.metainfo is Some,
        ensures
            key_result_view(r) == spec_public_key_for_channel(
                self@.metainfo->0.channel,
                os_release@,
                cmdline@,
            ),
    {
        public_key_for_channel(self.metainfo().channel(), os_release, cmdline)
    }

    /// Whether the signature in the header is a valid signature of the
    /// metainfo document by `pubkey`.
    pub fn verify_signature(&self, pubkey: PublicKey) -> (r: bool)
        requires
            metainfo_len_ok(self@.bytes),
        ensures
            r == ed25519_verify(pubkey@, spec_metainfo_bytes(self@.bytes), spec_signature(self@.bytes)),
    {
        let data = self.metainfo_bytes();
        let sig = self.signature();
        pubkey.verify(data.as_slice(), sig.as_slice())
    }

    /// `true` if the header holds a metainfo document.
    pub fn has_metainfo(&self) -> (r: bool)
        ensures
            r == self@.metainfo is Some,
    {
        self.metainfo.is_some()
    }

    /// The bytes of the header block.
    pub fn bytes(&self) -> (r: Vec<u8>)
        ensures
            r@ == self@.bytes,
    {
        let r = self.buffer.read_bytes(0, 4096);
        assert(r@ =~= self@.bytes);
        r
    }

    /// `true` if the header starts with the magic value `SGOS`.
    pub fn is_magic_valid(&self) -> (r: bool)
        ensures
            r == spec_magic_valid(self@.bytes),
    {
        let m = self.buffer.read_bytes(0, 4);
        let r = m[0] == 0x53u8 && m[1] == 0x47u8 && m[2] == 0x4fu8 && m[3] == 0x53u8;
        assert(r == (m@ =~= magic()));
        r
    }

    pub fn status(&self) -> (r: u8)
        ensures
            r == self@.bytes[4],
    {
        self.read_u8(4)
    }

    pub fn set_status(&mut self, status: u8)
        ensures
            final(self)@.bytes == old(self)@.bytes.update(4, status),
            final(self)@.metainfo == old(self)@.metainfo,
            final(self)@.timestamp == old(self)@.timestamp,
    {
        self.write_u8(4, status);
    }

    /// The label of the status code, or a message naming an invalid code.
    pub fn status_code_label(&self) -> (r: String)
        ensures
            r@ == spec_status_label(self@.bytes[4]),
    {
        let code = self.status();
        if is_valid_status_code(code) {
            status_label(code)
        } else {
            let mut s = to_owned_string("Invalid status code: ");
            let n = decimal_string(code as u64);
            push_str(&mut s, n.as_str());
            s
        }
    }

    pub fn flags(&self) -> (r: u8)
        ensures
            r == self@.bytes[5],
    {
        self.read_u8(5)
    }

    /// `true` if all bits of `flag` are set.
    pub fn has_flag(&self, flag: u8) -> (r: bool)
        ensures
            r == (self@.bytes[5] & flag == flag),
    {
        (self.flags() & flag) == flag
    }

    /// Sets the bits of `flag`. Returns `true` if the flags byte changed.
    pub fn set_flag(&mut self, flag: u8) -> (r: bool)
        ensures
            final(self)@.bytes == old(self)@.bytes.update(5, old(self)@.bytes[5] | flag),
            final(self)@.metainfo == old(self)@.metainfo,
            final(self)@.timestamp == old(self)@.timestamp,
            r == (old(self)@.bytes[5] != old(self)@.bytes[5] | flag),
    {
        self.change_flag(flag, true)
    }

    /// Clears the bits of `flag`. Returns `true` if the flags byte changed.
    pub fn clear_flag(&mut self, flag: u8) -> (r: bool)
        ensures
            final(self)@.bytes == old(self)@.bytes.update(5, old(self)@.bytes[5] & !flag),
            final(self)@.metainfo == old(self)@.metainfo,
            final(self)@.timestamp == old(self)@.timestamp,
            r == (old(self)@.bytes[5] != old(self)@.bytes[5] & !flag),
    {
        self.change_flag(flag, false)
    }

    fn change_flag(&mut self, flag: u8, set: bool) -> (r: bool)
        ensures
            final(self)@.bytes == old(self)@.bytes.update(
                5,
                if set {
                    old(self)@.bytes[5] | flag
                } else {
                    old(self)@.bytes[5] & !flag
                },
            ),
            final(self)@.metainfo == old(self)@.metainfo,
            final(self)@.timestamp == old(self)@.timestamp,
            r == (old(self)@.bytes[5] != if set {
                old(self)@.bytes[5] | flag
            } else {
                old(self)@.bytes[5] & !flag
            }),
    {
        let old = self.flags();
        let new = if set {
            old | flag
        } else {
            old & !flag
        };
        self.write_u8(5, new);
        old != new
    }

    /// Length of the metainfo document.
    pub fn metainfo_len(&self) -> (r: usize)
        ensures
            r == spec_metainfo_len(self@.bytes),
    {
        self.read_u16(6) as usize
    }

    /// Stores `bytes` as the metainfo document. `parsed` is the document
    /// parsed from `bytes` (`None` if it could not be parsed, which leaves
    /// the header unchanged and is an error).
    pub fn set_metainfo_bytes(&mut self, bytes: &[u8], parsed: Option<MetaInfo>) -> (r: Result<(), Error>)
        requires
            parsed is Some ==> 8 + bytes@.len() <= HEADER_SIZE,
        ensures
            match r {
                Ok(()) => {
                    &&& parsed is Some
                    &&& final(self)@.bytes == with_metainfo(old(self)@.bytes, bytes@)
                    &&& final(self)@.metainfo == Some(parsed.unwrap()@)
                    &&& final(self)@.timestamp == old(self)@.timestamp
                },
                Err(e) => e == Error::BadMetainfo && parsed is None && final(self)@ == old(self)@,
            },
    {
        let metainfo = match parsed {
            Some(m) => m,
            None => return Err(Error::BadMetainfo),
        };
        let ghost before = self.buffer.view();
        let mut i: usize = 8;
        while i < 4096
            invariant
                8 <= i <= 4096,
                self.buffer.view().len() == 4096,
                forall|j: int| 8 <= j < i ==> self.buffer.view()[j] == 0u8,
                forall|j: int| 0 <= j < 8 ==> self.buffer.view()[j] == before[j],
                before.len() == 4096,
                self.metainfo == old(self).metainfo,
                self.timestamp == old(self).timestamp,
            decreases 4096 - i,
        {
            self.buffer.write_u8(i, 0);
            i += 1;
        }
        self.buffer.set_metainfo_len(bytes.len());
        self.buffer.write_bytes(8, bytes);
        assert(self.buffer.view() =~= with_metainfo(before, bytes@));
        self.metainfo = Some(metainfo);
        Ok(())
    }

    /// The metainfo bytes.
    pub fn metainfo_bytes(&self) -> (r: Vec<u8>)
        requires
            metainfo_len_ok(self@.bytes),
        ensures
            r@ == spec_metainfo_bytes(self@.bytes),
    {
        let mlen = self.metainfo_len();
        self.read_bytes(METAINFO_OFFSET, mlen)
    }

    /// `true` if any byte of the signature is not zero.
    pub fn has_signature(&self) -> (r: bool)
        requires
            metainfo_len_ok(self@.bytes),
        ensures
            r == exists|i: int| 0 <= i < 64 && spec_signature(self@.bytes)[i] != 0,
    {
        let sig = self.signature();
        let mut i: usize = 0;
        while i < sig.len()
            invariant
                i <= sig@.len(),
                sig@ == spec_signature(self@.bytes),
                sig@.len() == 64,
                forall|j: int| 0 <= j < i ==> sig@[j] == 0,
            decreases sig@.len() - i,
        {
            if sig[i] != 0 {
                return true;
            }
            i += 1;
        }
        false
    }

    /// The signature bytes that follow the metainfo document.
    pub fn signature(&self) -> (r: Vec<u8>)
        requires
            metainfo_len_ok(self@.bytes),
        ensures
            r@ == spec_signature(self@.bytes),
            r@.len() == 64,
    {
        let mlen = self.metainfo_len();
        self.read_bytes(METAINFO_OFFSET + mlen, SIGNATURE_LENGTH)
    }

    /// Stores `signature` after the metainfo document. Fails if it is not 64 bytes long.
    pub fn set_signature(&mut self, signature: &[u8]) -> (r: Result<(), Error>)
        requires
            signature@.len() == 64 ==> spec_metainfo_len(old(self)@.bytes) + 72 <= HEADER_SIZE,
        ensures
            match r {
                Ok(()) => {
                    &&& signature@.len() == 64
                    &&& final(self)@.bytes == overwrite(
                        old(self)@.bytes,
                        8 + spec_metainfo_len(old(self)@.bytes),
                        signature@,
                    )
                    &&& final(self)@.metainfo == old(self)@.metainfo
                    &&& final(self)@.timestamp == old(self)@.timestamp
                },
                Err(e) => e == Error::BadSignatureLength && signature@.len() != 64 && final(self)@
                    == old(self)@,
            },
    {
        if signature.len() != SIGNATURE_LENGTH {
            return Err(Error::BadSignatureLength);
        }
        let mlen = self.metainfo_len();
        self.write_bytes(8 + mlen, signature);
        Ok(())
    }

    /// Overwrites the signature with zeros.
    pub fn clear_signature(&mut self) -> (r: Result<(), Error>)
        requires
            spec_metainfo_len(old(self)@.bytes) + 72 <= HEADER_SIZE,
        ensures
            r is Ok,
            final(self)@.bytes == overwrite(
                old(self)@.bytes,
                8 + spec_metainfo_len(old(self)@.bytes),
                Seq::new(64, |i: int| 0u8),
            ),
            final(self)@.metainfo == old(self)@.metainfo,
            final(self)@.timestamp == old(self)@.timestamp,
    {
        let zeros = vec![0u8; 64];
        assert(zeros@ =~= Seq::new(64, |i: int| 0u8));
        self.set_signature(zeros.as_slice())
    }

    fn read_u8(&self, idx: usize) -> (r: u8)
        requires
            idx < HEADER_SIZE,
        ensures
            r == self@.bytes[idx as int],
    {
        self.buffer.read_u8(idx)
    }

    fn write_u8(&mut self, idx: usize, val: u8)
        requires
            idx < HEADER_SIZE,
        ensures
            final(self)@.bytes == old(self)@.bytes.update(idx as int, val),
            final(self)@.metainfo == old(self)@.metainfo,
            final(self)@.timestamp == old(self)@.timestamp,
    {
        self.buffer.write_u8(idx, val)
    }

    fn read_u16(&self, idx: usize) -> (r: u16)
        requires
            idx + 1 < HEADER_SIZE,
        ensures
            r == be_u16(self@.bytes, idx as int),
    {
        self.buffer.read_u16(idx)
    }

    fn write_bytes(&mut self, offset: usize, data: &[u8])
        requires
            offset + data@.len() <= HEADER_SIZE,
        ensures
            final(self)@.bytes == overwrite(old(self)@.bytes, offset as int, data@),
            final(self)@.metainfo == old(self)@.metainfo,
            final(self)@.timestamp == old(self)@.timestamp,
    {
        self.buffer.write_bytes(offset, data)
    }

    fn read_bytes(&self, offset: usize, len: usize) -> (r: Vec<u8>)
        requires
            offset + len <= HEADER_SIZE,
        ensures
            r@ == self@.bytes.subrange(offset as int, offset + len),
    {
        self.buffer.read_bytes(offset, len)
    }
}

/// The label of a valid status code.
fn status_label(code: u8) -> (r: String)
    requires
        code <= 6,
    ensures
        r@ == spec_status_label(code),
{
    if code == 0 {
        to_owned_string("Invalid")
    } else if code == 1 {
        to_owned_string("New")
    } else if code == 2 {
        to_owned_string("Try Boot")
    } else if code == 3 {
        to_owned_string("Good")
    } else if code == 4 {
        to_owned_string("Failed Boot")
    } else if code == 5 {
        to_owned_string("Bad Signature")
    } else {
        to_owned_string("Bad Metainfo")
    }
}

// ---------------------------------------------------------------------------
// Laws of the header layout
// ---------------------------------------------------------------------------

/// Setting the status changes the status byte only: the status reads back
/// as written, and the metainfo document and signature are unchanged.
pub proof fn law_set_status(bytes: Seq<u8>, status: u8)
    requires
        bytes.len() == HEADER_SIZE,
        metainfo_len_ok(bytes),
    ensures
        bytes.update(4, status)[4] == status,
        bytes.update(4, status)[5] == bytes[5],
        spec_metainfo_len(bytes.update(4, status)) == spec_metainfo_len(bytes),
        spec_metainfo_bytes(bytes.update(4, status)) == spec_metainfo_bytes(bytes),
        spec_signature(bytes.update(4, status)) == spec_signature(bytes),
        spec_magic_valid(bytes.update(4, status)) == spec_magic_valid(bytes),
{
    let b = bytes.update(4, status);
    assert(spec_metainfo_bytes(b) =~= spec_metainfo_bytes(bytes));
    assert(spec_signature(b) =~= spec_signature(bytes));
    assert(b.subrange(0, 4) =~= bytes.subrange(0, 4));
}

/// After `set_flag(flag)` the header has the flag, and every flag disjoint
/// from it is as before.
pub proof fn law_set_flag(flags: u8, flag: u8, other: u8)
    requires
        other & flag == 0,
    ensures
        (flags | flag) & flag == flag,
        ((flags | flag) & other == other) == (flags & other == other),
{
    assert((flags | flag) & flag == flag) by (bit_vector);
    assert(other & flag == 0 ==> (((flags | flag) & other == other) == (flags & other == other)))
        by (bit_vector);
}

/// After `clear_flag(flag)` for a non-zero flag the header no longer has
/// it, and every flag disjoint from it is as before.
pub proof fn law_clear_flag(flags: u8, flag: u8, other: u8)
    requires
        flag != 0,
        other & flag == 0,
    ensures
        (flags & !flag) & flag != flag,
        ((flags & !flag) & other == other) == (flags & other == other),
{
    assert(flag != 0 ==> (flags & !flag) & flag != flag) by (bit_vector);
    assert(other & flag == 0 ==> (((flags & !flag) & other == other) == (flags & other == other)))
        by (bit_vector);
}

/// A signature written by `set_signature` reads back from `signature`, and
/// the metainfo document is unchanged.
pub proof fn law_signature_roundtrip(bytes: Seq<u8>, sig: Seq<u8>)
    requires
        bytes.len() == HEADER_SIZE,
        metainfo_len_ok(bytes),
        sig.len() == 64,
        spec_metainfo_len(bytes) + 72 <= HEADER_SIZE,
    ensures
        spec_metainfo_len(overwrite(bytes, 8 + spec_metainfo_len(bytes), sig)) == spec_metainfo_len(
            bytes,
        ),
        spec_signature(overwrite(bytes, 8 + spec_metainfo_len(bytes), sig)) == sig,
        spec_metainfo_bytes(overwrite(bytes, 8 + spec_metainfo_len(bytes), sig))
            == spec_metainfo_bytes(bytes),
        overwrite(bytes, 8 + spec_metainfo_len(bytes), sig)[4] == bytes[4],
        overwrite(bytes, 8 + spec_metainfo_len(bytes), sig)[5] == bytes[5],
{
    let m = spec_metainfo_len(bytes);
    let b = overwrite(bytes, 8 + m, sig);
    assert(b.len() == 4096);
    assert(b[6] == bytes[6] && b[7] == bytes[7]);
    assert(spec_signature(b) =~= sig);
    assert(spec_metainfo_bytes(b) =~= spec_metainfo_bytes(bytes));
}

/// The length recorded by `with_metainfo` is that of the document.
pub proof fn lemma_with_metainfo_len(bytes: Seq<u8>, data: Seq<u8>)
    requires
        bytes.len() == HEADER_SIZE,
        data.len() < MAX_METAINFO_LEN,
    ensures
        with_metainfo(bytes, data).len() == HEADER_SIZE,
        spec_metainfo_len(with_metainfo(bytes, data)) == data.len(),
{
    let b = with_metainfo(bytes, data);
    let len = data.len();
    let v = (len % 65536) as u16;
    assert(len % 65536 == len);
    assert(b[6] == (v / 256) as u8);
    assert(b[7] == (v % 256) as u8);
    assert(be_u16(b, 6) == v) by {
        assert((v / 256) as u8 as nat * 256 + (v % 256) as u8 as nat == v as nat);
    }
}

/// A metainfo document written by `set_metainfo_bytes` reads back from
/// `metainfo_len` and `metainfo_bytes`; the magic, status and flags are kept
/// and the signature is cleared.
pub proof fn law_metainfo_roundtrip(bytes: Seq<u8>, data: Seq<u8>)
    requires
        bytes.len() == HEADER_SIZE,
        0 < data.len() < MAX_METAINFO_LEN,
    ensures
        with_metainfo(bytes, data).len() == HEADER_SIZE,
        spec_metainfo_len(with_metainfo(bytes, data)) == data.len(),
        metainfo_len_ok(with_metainfo(bytes, data)),
        spec_metainfo_bytes(with_metainfo(bytes, data)) == data,
        spec_signature(with_metainfo(bytes, data)) == Seq::new(64, |i: int| 0u8),
        spec_magic_valid(with_metainfo(bytes, data)) == spec_magic_valid(bytes),
        with_metainfo(bytes, data)[4] == bytes[4],
        with_metainfo(bytes, data)[5] == bytes[5],
{
    let b = with_metainfo(bytes, data);
    let len = data.len();
    let v = (len % 65536) as u16;
    assert(len % 65536 == len);
    assert(b[6] == (v / 256) as u8);
    assert(b[7] == (v % 256) as u8);
    assert(be_u16(b, 6) == v) by {
        assert((v / 256) as u8 as nat * 256 + (v % 256) as u8 as nat == v as nat);
    }
    assert(spec_metainfo_bytes(b) =~= data);
    assert(spec_signature(b) =~= Seq::new(64, |i: int| 0u8));
    assert(b.subrange(0, 4) =~= bytes.subrange(0, 4));
}

/// Law: a header rebuilt by `from_slice` from the block that `bytes` gives
/// (as writing a header and reading it back does) has the same status,
/// flags, metainfo document and signature; with the document parsed again,
/// the same metainfo.
pub proof fn law_header_block_roundtrip(h: HeaderView, read: HeaderView)
    requires
        h.bytes.len() == HEADER_SIZE,
        read.bytes == h.bytes,
    ensures
        read.bytes[4] == h.bytes[4],
        read.bytes[5] == h.bytes[5],
        spec_metainfo_bytes(read.bytes) == spec_metainfo_bytes(h.bytes),
        spec_signature(read.bytes) == spec_signature(h.bytes),
        spec_magic_valid(read.bytes) == spec_magic_valid(h.bytes),
{
}

/// The header `h` read from a file no longer matches it when the file's
/// modification time `mtime` is not the one it recorded.
pub open spec fn spec_needs_reload(h: HeaderView, mtime: i64) -> bool {
    h.timestamp != mtime
}

/// `h` after reloading from `fresh`, the file reread at `mtime`.
pub open spec fn spec_reloaded(h: HeaderView, fresh: HeaderView, mtime: i64) -> HeaderView {
    HeaderView { bytes: fresh.bytes, metainfo: fresh.metainfo, timestamp: mtime }
}

/// Law: a header whose file changed (at `mtime`) needs a reload until one
/// succeeds. After a failed reread (`reload_with(mtime, None)` leaves the
/// header as it was) it still needs the reload; after a successful one it
/// holds the bytes and metainfo of the file and needs none until the file
/// changes again. A header whose file did not change needs no reload.
pub proof fn law_reload_until_success(h: HeaderView, after_failure: HeaderView, fresh: HeaderView, mtime: i64)
    requires
        spec_needs_reload(h, mtime),
        after_failure == h,
    ensures
        spec_needs_reload(after_failure, mtime),
        !spec_needs_reload(spec_reloaded(after_failure, fresh, mtime), mtime),
        spec_reloaded(after_failure, fresh, mtime).bytes == fresh.bytes,
        spec_reloaded(after_failure, fresh, mtime).metainfo == fresh.metainfo,
        forall|m: i64| m != mtime ==> spec_needs_reload(spec_reloaded(after_failure, fresh, mtime), m),
        !spec_needs_reload(h, h.timestamp),
{
}

} // verus!
