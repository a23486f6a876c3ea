//! Root filesystem partitions: the header each holds and the decisions
//! taken over their status at boot.
use vstd::prelude::*;

use crate::cmdline::CommandLine;
use crate::config::OsRelease;
use crate::header::{
    HEADER_SIZE, metainfo_len_ok, spec_magic_valid, spec_metainfo_bytes, spec_signature, HeaderView,
    ImageHeader, MetaInfo,
};
use crate::keys::{ed25519_verify, key_result_view, spec_public_key_for_channel, PublicKey};
use crate::path::{file_name, spec_file_name};
use crate::sort::{
    lemma_text_le_refl, lemma_text_le_total, lemma_text_le_trans, sort_in_order, sorted_in_order,
    text_le, text_less, TotalOrder,
};
use crate::text::{spec_starts_with, starts_with, to_owned_string};

verus! {

/// Status of a partition whose image has just been installed.
pub const STATUS_NEW: u8 = 1;
/// Status of a partition being tried at boot.
pub const STATUS_TRY_BOOT: u8 = 2;
/// Status of a partition that booted successfully.
pub const STATUS_GOOD: u8 = 3;
/// Status of a partition that failed to boot.
pub const STATUS_FAILED: u8 = 4;
/// Status of a partition whose signature failed to verify.
pub const STATUS_BAD_SIG: u8 = 5;
/// Flag of the partition preferred for boot.
pub const FLAG_PREFER_BOOT: u8 = 0x01;

/// The header of an initialized partition and the public key of its channel.
struct HeaderInfo {
    header: ImageHeader,
    pubkey: Option<PublicKey>,
}

/// The model of a partition.
pub struct PartitionView {
    /// Path of the partition device.
    pub path: Seq<char>,
    /// Whether the partition is mounted or held by another device.
    pub is_mounted: bool,
    /// The header, for a partition whose header has valid magic.
    pub header: Option<HeaderView>,
    /// The public key of the header's channel, if one is known.
    pub pubkey: Option<Seq<u8>>,
}

/// A root filesystem partition.
pub struct Partition {
    path: String,
    hinfo: Option<HeaderInfo>,
    is_mounted: bool,
}

impl View for Partition {
    type V = PartitionView;

    closed spec fn view(&self) -> PartitionView {
        PartitionView {
            path: self.path@,
            is_mounted: self.is_mounted,
            header: match self.hinfo {
                Some(h) => Some(h.header@),
                None => None,
            },
            pubkey: match self.hinfo {
                Some(h) => match h.pubkey {
                    Some(k) => Some(k@),
                    None => None,
                },
                None => None,
            },
        }
    }
}

/// A header a partition can hold: valid magic, a metainfo document and a
/// metainfo length that fits the block.
pub open spec fn header_ok(h: HeaderView) -> bool {
    &&& h.bytes.len() == HEADER_SIZE
    &&& spec_magic_valid(h.bytes)
    &&& h.metainfo is Some
    &&& metainfo_len_ok(h.bytes)
}

impl PartitionView {
    /// The partition's header, if any, is one a partition can hold.
    pub open spec fn wf(self) -> bool {
        self.header matches Some(h) ==> header_ok(h)
    }

    /// The status byte of the header.
    pub open spec fn status(self) -> u8 {
        self.header->0.bytes[4]
    }

    /// `status` set to `s`.
    pub open spec fn with_status(self, s: u8) -> PartitionView {
        PartitionView {
            header: Some(
                HeaderView {
                    bytes: self.header->0.bytes.update(4, s),
                    metainfo: self.header->0.metainfo,
                    timestamp: self.header->0.timestamp,
                },
            ),
            ..self
        }
    }

    /// The header's signature verifies against the channel key.
    pub open spec fn signature_valid(self) -> bool {
        &&& self.header is Some
        &&& self.pubkey is Some
        &&& ed25519_verify(
            self.pubkey->0,
            spec_metainfo_bytes(self.header->0.bytes),
            spec_signature(self.header->0.bytes),
        )
    }
}

proof fn lemma_header_ok_update(h: HeaderView, i: int, v: u8)
    requires
        header_ok(h),
        i == 4 || i == 5,
    ensures
        header_ok(HeaderView { bytes: h.bytes.update(i, v), ..h }),
{
    assert(h.bytes.update(i, v).subrange(0, 4) =~= h.bytes.subrange(0, 4));
}

/// What `boot_scan` does to a partition: a partition left in `TRY_BOOT`
/// failed its boot attempt and becomes `FAILED`; one whose signature had
/// failed but now verifies becomes `NEW`.
pub open spec fn spec_boot_scan(p: PartitionView) -> PartitionView {
    if p.header is None {
        p
    } else if p.status() == STATUS_TRY_BOOT {
        p.with_status(STATUS_FAILED)
    } else if p.status() == STATUS_BAD_SIG && p.signature_valid() {
        p.with_status(STATUS_NEW)
    } else {
        p
    }
}

/// `true` for the path of a root filesystem partition: its file name
/// begins with `citadel-rootfs`.
pub open spec fn spec_is_path_rootfs(path: Seq<char>) -> bool {
    match spec_file_name(path) {
        Some(n) => spec_starts_with(n, "citadel-rootfs"@),
        None => false,
    }
}

/// `true` for the path of a root filesystem partition.
pub fn is_path_rootfs(path: &str) -> (r: bool)
    ensures
        r == spec_is_path_rootfs(path@),
{
    match file_name(path) {
        Some(n) => starts_with(n.as_str(), "citadel-rootfs"),
        None => false,
    }
}

impl Partition {
    /// The partition at `path` whose header block is `header`. A header with
    /// valid magic is kept, with the public key of its channel when one can
    /// be found.
    pub fn new(path: &str, header: ImageHeader, os_release: &OsRelease, cmdline: &CommandLine, is_mounted: bool) -> (r: Partition)
        requires
            header@.bytes.len() == HEADER_SIZE,
            spec_magic_valid(header@.bytes) ==> header@.metainfo is Some && metainfo_len_ok(header@.bytes),
        ensures
            r@.path == path@,
            r@.is_mounted == is_mounted,
            r@.wf(),
            spec_magic_valid(header@.bytes) ==> r@.header == Some(header@) && match spec_public_key_for_channel(
                header@.metainfo->0.channel,
                os_release@,
                cmdline@,
            ) {
                Ok(Some(k)) => r@.pubkey == Some(k),
                _ => r@.pubkey is None,
            },
            !spec_magic_valid(header@.bytes) ==> r@.header is None && r@.pubkey is None,
    {
        let hinfo = if !header.is_magic_valid() {
            None
        } else {
            let pubkey = match header.public_key(os_release, cmdline) {
                Ok(result) => result,
                Err(_) => None,
            };
            Some(HeaderInfo { header, pubkey })
        };
        Partition { path: to_owned_string(path), hinfo, is_mounted }
    }

    /// Path of the partition device.
    pub fn path(&self) -> (r: &str)
        ensures
            r@ == self@.path,
    {
        self.path.as_str()
    }

    /// Whether the partition is mounted or held by another device.
    pub fn is_mounted(&self) -> (r: bool)
        ensures
            r == self@.is_mounted,
    {
        self.is_mounted
    }

    /// Whether the partition holds a header with valid magic.
    pub fn is_initialized(&self) -> (r: bool)
        ensures
            r == self@.header is Some,
    {
        self.hinfo.is_some()
    }

    /// The header of an initialized partition.
    pub fn header(&self) -> (r: &ImageHeader)
        requires
            self@.header is Some,
        ensures
            self@.header == Some(r@),
    {
        match &self.hinfo {
            Some(h) => &h.header,
            None => vstd::pervasive::unreached(),
        }
    }

    /// The metainfo document of an initialized partition.
    pub fn metainfo(&self) -> (r: &MetaInfo)
        requires
            self@.header is Some,
            self@.wf(),
        ensures
            self@.header->0.metainfo == Some(r@),
    {
        self.header().metainfo()
    }

    /// Whether the partition's status is `NEW`.
    pub fn is_new(&self) -> (r: bool)
        requires
            self@.header is Some,
        ensures
            r == (self@.status() == STATUS_NEW),
    {
        self.header().status() == STATUS_NEW
    }

    /// Whether the partition's status is `GOOD`.
    pub fn is_good(&self) -> (r: bool)
        requires
            self@.header is Some,
        ensures
            r == (self@.status() == STATUS_GOOD),
    {
        self.header().status() == STATUS_GOOD
    }

    /// Whether the partition is flagged as preferred for boot.
    pub fn is_preferred(&self) -> (r: bool)
        requires
            self@.header is Some,
        ensures
            r == (self@.header->0.bytes[5] & FLAG_PREFER_BOOT == FLAG_PREFER_BOOT),
    {
        self.header().has_flag(FLAG_PREFER_BOOT)
    }

    /// Whether the partition's signature failed to verify.
    pub fn is_sig_failed(&self) -> (r: bool)
        requires
            self@.header is Some,
        ensures
            r == (self@.status() == STATUS_BAD_SIG),
    {
        self.header().status() == STATUS_BAD_SIG
    }

    /// Whether the header's signature verifies against the channel key.
    pub fn is_signature_valid(&self) -> (r: bool)
        requires
            self@.wf(),
        ensures
            r == self@.signature_valid(),
    {
        match &self.hinfo {
            Some(h) => match &h.pubkey {
                Some(pubkey) => h.header.verify_signature(*pubkey),
                None => false,
            },
            None => false,
        }
    }

    /// Whether a public key is known for the partition's channel.
    pub fn has_public_key(&self) -> (r: bool)
        ensures
            r == self@.pubkey is Some,
    {
        match &self.hinfo {
            Some(h) => h.pubkey.is_some(),
            None => false,
        }
    }

    /// Sets the status of an initialized partition's header; the caller
    /// writes the header back to the partition.
    pub fn set_status(&mut self, status: u8)
        requires
            old(self)@.header is Some,
            old(self)@.wf(),
        ensures
            final(self)@ == old(self)@.with_status(status),
            final(self)@.wf(),
    {
        let mut hinfo: Option<HeaderInfo> = None;
        std::mem::swap(&mut hinfo, &mut self.hinfo);
        match hinfo {
            Some(mut h) => {
                proof {
                    lemma_header_ok_update(h.header@, 4, status);
                }
                h.header.set_status(status);
                self.hinfo = Some(h);
            },
            None => {},
        }
    }

    /// Sets the bits of `flag` in an initialized partition's header; the
    /// caller writes the header back to the partition.
    pub fn set_flag(&mut self, flag: u8)
        requires
            old(self)@.header is Some,
            old(self)@.wf(),
        ensures
            final(self)@.header == Some(
                HeaderView {
                    bytes: old(self)@.header->0.bytes.update(5, old(self)@.header->0.bytes[5] | flag),
                    ..old(self)@.header->0
                },
            ),
            final(self)@.path == old(self)@.path,
            final(self)@.is_mounted == old(self)@.is_mounted,
            final(self)@.pubkey == old(self)@.pubkey,
            final(self)@.wf(),
    {
        let mut hinfo: Option<HeaderInfo> = None;
        std::mem::swap(&mut hinfo, &mut self.hinfo);
        match hinfo {
            Some(mut h) => {
                proof {
                    lemma_header_ok_update(h.header@, 5, h.header@.bytes[5] | flag);
                }
                h.header.set_flag(flag);
                self.hinfo = Some(h);
            },
            None => {},
        }
    }

    /// Clears the bits of `flag` in an initialized partition's header; the
    /// caller writes the header back to the partition.
    pub fn clear_flag(&mut self, flag: u8)
        requires
            old(self)@.header is Some,
            old(self)@.wf(),
        ensures
            final(self)@.header == Some(
                HeaderView {
                    bytes: old(self)@.header->0.bytes.update(5, old(self)@.header->0.bytes[5] & !flag),
                    ..old(self)@.header->0
                },
            ),
            final(self)@.path == old(self)@.path,
            final(self)@.is_mounted == old(self)@.is_mounted,
            final(self)@.pubkey == old(self)@.pubkey,
            final(self)@.wf(),
    {
        let mut hinfo: Option<HeaderInfo> = None;
        std::mem::swap(&mut hinfo, &mut self.hinfo);
        match hinfo {
            Some(mut h) => {
                proof {
                    lemma_header_ok_update(h.header@, 5, h.header@.bytes[5] & !flag);
                }
                h.header.clear_flag(flag);
                self.hinfo = Some(h);
            },
            None => {},
        }
    }

    /// The boot time checks: a partition left in `TRY_BOOT` is marked
    /// `FAILED`; one whose signature had failed but now verifies is marked
    /// `NEW`. Returns `true` when the header changed and must be written
    /// back to the partition.
    pub fn boot_scan(&mut self) -> (r: bool)
        requires
            old(self)@.wf(),
        ensures
            final(self)@ == spec_boot_scan(old(self)@),
            final(self)@.wf(),
            r == (spec_boot_scan(old(self)@) != old(self)@),
    {
        if !self.is_initialized() {
            return false;
        }
        if self.header().status() == STATUS_TRY_BOOT {
            self.set_status(STATUS_FAILED);
            proof {
                assert(old(self)@.with_status(STATUS_FAILED).status() != old(self)@.status());
            }
            return true;
        }
        if self.is_sig_failed() && self.is_signature_valid() {
            self.set_status(STATUS_NEW);
            proof {
                assert(old(self)@.with_status(STATUS_NEW).status() != old(self)@.status());
            }
            return true;
        }
        false
    }

    /// Marks a partition that booted from `TRY_BOOT` as `GOOD`. Returns
    /// `true` when the header changed and must be written back.
    pub fn bless(&mut self) -> (r: bool)
        requires
            old(self)@.header is Some,
            old(self)@.wf(),
        ensures
            old(self)@.status() == STATUS_TRY_BOOT ==> final(self)@ == old(self)@.with_status(STATUS_GOOD) && r,
            old(self)@.status() != STATUS_TRY_BOOT ==> final(self)@ == old(self)@ && !r,
            final(self)@.wf(),
    {
        if self.header().status() == STATUS_TRY_BOOT {
            self.set_status(STATUS_GOOD);
            return true;
        }
        false
    }
}

impl TotalOrder for Partition {
    /// Partitions are ordered by path.
    open spec fn order_le(self, other: Self) -> bool {
        text_le(self@.path, other@.path)
    }

    proof fn lemma_order_refl(a: Self) {
        lemma_text_le_refl(a@.path);
    }

    proof fn lemma_order_total(a: Self, b: Self) {
        lemma_text_le_total(a@.path, b@.path);
    }

    proof fn lemma_order_trans(a: Self, b: Self, c: Self) {
        lemma_text_le_trans(a@.path, b@.path, c@.path);
    }

    fn less(&self, other: &Self) -> (r: bool) {
        text_less(self.path(), other.path())
    }
}

/// The root filesystem partitions in order of their paths.
pub fn sorted_by_path(partitions: Vec<Partition>) -> (r: Vec<Partition>)
    ensures
        r@.to_multiset() == partitions@.to_multiset(),
        sorted_in_order(r@),
{
    sort_in_order(partitions)
}

/// Law: after a boot scan no partition is left in `TRY_BOOT`.
pub proof fn law_boot_scan_clears_try_boot(p: PartitionView)
    requires
        p.wf(),
        p.header is Some,
    ensures
        spec_boot_scan(p).status() != STATUS_TRY_BOOT,
{
}

/// Law: a second boot scan changes nothing more.
pub proof fn law_boot_scan_idempotent(p: PartitionView)
    requires
        p.wf(),
    ensures
        spec_boot_scan(spec_boot_scan(p)) == spec_boot_scan(p),
{
}

} // verus!
