//! Sizes of RealmFS images, the rules for growing them, and the ext4
//! superblock field that decides when an image is grown automatically.
use vstd::prelude::*;

use byteorder::{ByteOrder, LittleEndian};

use crate::error::Error;

verus! {

/// Blocks in one megabyte.
pub const BLOCKS_PER_MEG: usize = 256;

/// Blocks in one gigabyte.
pub const BLOCKS_PER_GIG: usize = 262144;

/// An image with fewer free blocks than this (1 gigabyte) is grown.
pub const AUTO_RESIZE_MINIMUM_FREE: usize = 262144;

/// Automatic growth happens in steps of this many blocks (4 gigabytes).
pub const AUTO_RESIZE_INCREASE_SIZE: usize = 1048576;

/// The most an image may grow by in one resize (8 gigabytes).
pub const MAX_GROW_BLOCKS: usize = 2097152;

/// Size in bytes of an ext4 superblock.
pub const SUPERBLOCK_SIZE: usize = 1024;

/// A size expressed as a count of 4096 byte blocks.
#[derive(Debug, Clone, Copy, PartialEq, Eq, Structural)]
pub struct ResizeSize(pub usize);

impl ResizeSize {
    /// `n` gigabytes.
    pub fn gigs(n: usize) -> (r: ResizeSize)
        requires
            n * BLOCKS_PER_GIG <= usize::MAX,
        ensures
            r.0 == n * BLOCKS_PER_GIG,
    {
        ResizeSize(BLOCKS_PER_GIG * n)
    }

    /// `n` megabytes.
    pub fn megs(n: usize) -> (r: ResizeSize)
        requires
            n * BLOCKS_PER_MEG <= usize::MAX,
        ensures
            r.0 == n * BLOCKS_PER_MEG,
    {
        ResizeSize(BLOCKS_PER_MEG * n)
    }

    /// `n` blocks.
    pub fn blocks(n: usize) -> (r: ResizeSize)
        ensures
            r.0 == n,
    {
        ResizeSize(n)
    }

    /// The size in blocks.
    pub fn nblocks(&self) -> (r: usize)
        ensures
            r == self.0,
    {
        self.0
    }

    /// The size in whole gigabytes, rounded down.
    pub fn size_in_gb(&self) -> (r: usize)
        ensures
            r == self.0 / BLOCKS_PER_GIG,
    {
        self.0 / BLOCKS_PER_GIG
    }

    /// The size in whole megabytes, rounded down.
    pub fn size_in_mb(&self) -> (r: usize)
        ensures
            r == self.0 / BLOCKS_PER_MEG,
    {
        self.0 / BLOCKS_PER_MEG
    }
}

/// Law: a size given in gigabytes (or megabytes) is that many gigabytes
/// (or megabytes) again.
pub proof fn law_size_units(n: nat)
    ensures
        (n * BLOCKS_PER_GIG) / (BLOCKS_PER_GIG as int) == n,
        (n * BLOCKS_PER_MEG) / (BLOCKS_PER_MEG as int) == n,
{
    vstd::arithmetic::div_mod::lemma_div_by_multiple(n as int, BLOCKS_PER_GIG as int);
    vstd::arithmetic::div_mod::lemma_div_by_multiple(n as int, BLOCKS_PER_MEG as int);
}

/// The little endian 32-bit value held by the first four bytes of `s`.
pub open spec fn le_u32(s: Seq<u8>) -> nat {
    s[0] as nat + s[1] as nat * 0x100 + s[2] as nat * 0x10000 + s[3] as nat * 0x1000000
}

/// `byteorder::LittleEndian::read_u32`: the first four bytes of `buf`
/// read as a little endian integer (the call panics on a shorter slice).
#[verifier::external_body]
fn read_u32_le(buf: &[u8]) -> (r: u32)
    requires
        buf@.len() >= 4,
    ensures
        r as nat == le_u32(buf@),
{
    LittleEndian::read_u32(buf)
}

/// The 1024 bytes of an ext4 superblock.
pub struct Superblock(pub [u8; 1024]);

impl Superblock {
    /// The bytes of the superblock.
    pub open spec fn bytes(&self) -> Seq<u8> {
        self.0@
    }

    /// The 64-bit free block count, split between a low word at offset
    /// 0x0C and a high word at offset 0x158.
    pub open spec fn spec_free_block_count(&self) -> nat {
        le_u32(self.bytes().skip(0x158)) * 0x1_0000_0000 + le_u32(self.bytes().skip(0x0C))
    }

    /// A superblock holding `bytes`.
    pub fn from_bytes(bytes: [u8; 1024]) -> (r: Superblock)
        ensures
            r.bytes() == bytes@,
    {
        Superblock(bytes)
    }

    /// The number of free blocks that the superblock records.
    pub fn free_block_count(&self) -> (r: u64)
        ensures
            r as nat == self.spec_free_block_count(),
    {
        self.split_u64(0x0C, 0x158)
    }

    fn u32(&self, offset: usize) -> (r: u32)
        requires
            offset + 4 <= 1024,
        ensures
            r as nat == le_u32(self.bytes().skip(offset as int)),
    {
        let at = self.at(offset);
        read_u32_le(at)
    }

    fn split_u64(&self, offset_lo: usize, offset_hi: usize) -> (r: u64)
        requires
            offset_lo + 4 <= 1024,
            offset_hi + 4 <= 1024,
        ensures
            r as nat == le_u32(self.bytes().skip(offset_hi as int)) * 0x1_0000_0000 + le_u32(
                self.bytes().skip(offset_lo as int),
            ),
    {
        let lo = self.u32(offset_lo) as u64;
        let hi = self.u32(offset_hi) as u64;
        let r = (hi << 32) | lo;
        assert(r == hi * 0x1_0000_0000 + lo) by (bit_vector)
            requires
                lo < 0x1_0000_0000,
                hi < 0x1_0000_0000,
                r == (hi << 32) | lo,
        ;
        r
    }

    fn at(&self, offset: usize) -> (r: &[u8])
        requires
            offset <= 1024,
        ensures
            r@ == self.bytes().skip(offset as int),
    {
        let s = self.0.as_slice();
        slice_from(s, offset)
    }
}

/// The elements of `s` from `start` on, as a subslice.
fn slice_from(s: &[u8], start: usize) -> (r: &[u8])
    requires
        start <= s@.len(),
    ensures
        r@ == s@.skip(start as int),
{
    let (_, tail) = s.split_at(start);
    tail
}

/// The size recommended for an image of `image_nblocks` blocks whose
/// superblock records `free` free blocks: none when at least a gigabyte is
/// free, otherwise the image size with four gigabytes added.
pub open spec fn spec_auto_resize(image_nblocks: nat, free: nat) -> Option<nat> {
    if free < AUTO_RESIZE_MINIMUM_FREE {
        Some(image_nblocks + AUTO_RESIZE_INCREASE_SIZE as nat)
    } else {
        None
    }
}

/// If an image of `image_nblocks` blocks (its `metainfo_nblocks`) needs to
/// be grown, the recommended size to pass to `ImageResizer::grow_to`,
/// decided from the image's superblock.
pub fn auto_resize_size(sb: &Superblock, image_nblocks: usize) -> (r: Option<ResizeSize>)
    requires
        image_nblocks + AUTO_RESIZE_INCREASE_SIZE <= usize::MAX,
    ensures
        match spec_auto_resize(image_nblocks as nat, sb.spec_free_block_count()) {
            Some(n) => r == Some(ResizeSize(n as usize)),
            None => r is None,
        },
{
    let free = sb.free_block_count();
    if free < AUTO_RESIZE_MINIMUM_FREE as u64 {
        Some(ResizeSize::blocks(image_nblocks + AUTO_RESIZE_INCREASE_SIZE))
    } else {
        None
    }
}

/// Law: the size recommended for a nearly full image is larger than the
/// image, and growing an unsealed image to it succeeds and adds exactly
/// four gigabytes.
pub proof fn law_auto_resize_grows(image_nblocks: nat, free: nat)
    requires
        free < AUTO_RESIZE_MINIMUM_FREE,
    ensures
        spec_auto_resize(image_nblocks, free) matches Some(n) && n > image_nblocks
            && spec_grow_to(image_nblocks, false, n) == Ok::<Option<nat>, Error>(
            Some(image_nblocks + AUTO_RESIZE_INCREASE_SIZE as nat),
        ),
{
}

/// The decisions of a resize, taken over the current size of an image and
/// whether it is sealed.  The size is the `metainfo_nblocks` of the image:
/// its `nblocks` metainfo field plus one.
#[derive(Debug, Clone, Copy, PartialEq, Eq, Structural)]
pub struct ImageResizer {
    pub current_nblocks: usize,
    pub sealed: bool,
}

/// What `grow_by` decides for an image of `current` blocks growing by `n`.
pub open spec fn spec_grow_by(current: nat, sealed: bool, n: nat) -> Result<nat, Error> {
    if sealed {
        Err(Error::Sealed)
    } else if n > MAX_GROW_BLOCKS {
        Err(Error::GrowTooLarge)
    } else {
        Ok(current + n)
    }
}

/// What `grow_to` decides for an image of `current` blocks to reach
/// `target` blocks: nothing to do when it is already as large.
pub open spec fn spec_grow_to(current: nat, sealed: bool, target: nat) -> Result<Option<nat>, Error> {
    if current >= target {
        Ok(None)
    } else {
        match spec_grow_by(current, sealed, (target - current) as nat) {
            Ok(n) => Ok(Some(n)),
            Err(e) => Err(e),
        }
    }
}

impl ImageResizer {
    /// A resizer for an image of `current_nblocks` blocks.
    pub fn new(current_nblocks: usize, sealed: bool) -> (r: ImageResizer)
        ensures
            r.current_nblocks == current_nblocks,
            r.sealed == sealed,
    {
        ImageResizer { current_nblocks, sealed }
    }

    /// Decides growing the image to `size` blocks: `Ok(None)` when it is
    /// already at least that large, otherwise the new size in blocks, which
    /// the caller then applies to the image file, the filesystem and the
    /// metainfo (as `nblocks` = new size - 1).
    pub fn grow_to(&self, size: ResizeSize) -> (r: Result<Option<usize>, Error>)
        ensures
            match spec_grow_to(self.current_nblocks as nat, self.sealed, size.0 as nat) {
                Ok(Some(n)) => r == Ok::<Option<usize>, Error>(Some(n as usize)),
                Ok(None) => r == Ok::<Option<usize>, Error>(None),
                Err(e) => r == Err::<Option<usize>, Error>(e),
            },
    {
        let target_nblocks = size.nblocks();
        let current_nblocks = self.current_nblocks;
        if current_nblocks >= target_nblocks {
            Ok(None)
        } else {
            let grow = ResizeSize::blocks(target_nblocks - current_nblocks);
            match self.grow_by(grow) {
                Ok(n) => Ok(Some(n)),
                Err(e) => Err(e),
            }
        }
    }

    /// Decides growing the image by `size` blocks: refused for a sealed
    /// image and for growth beyond 8 gigabytes, otherwise the new size in
    /// blocks.
    pub fn grow_by(&self, size: ResizeSize) -> (r: Result<usize, Error>)
        requires
            self.current_nblocks + size.0 <= usize::MAX,
        ensures
            match spec_grow_by(self.current_nblocks as nat, self.sealed, size.0 as nat) {
                Ok(n) => r == Ok::<usize, Error>(n as usize),
                Err(e) => r == Err::<usize, Error>(e),
            },
    {
        let nblocks = size.nblocks();
        let new_nblocks = self.current_nblocks + nblocks;
        if self.sealed {
            return Err(Error::Sealed);
        }
        self.resize(new_nblocks)
    }

    /// Checks a resize of the image to `new_nblocks` blocks.
    fn resize(&self, new_nblocks: usize) -> (r: Result<usize, Error>)
        ensures
            new_nblocks < self.current_nblocks ==> r == Err::<usize, Error>(Error::CannotShrink),
            new_nblocks >= self.current_nblocks && new_nblocks - self.current_nblocks
                > MAX_GROW_BLOCKS ==> r == Err::<usize, Error>(Error::GrowTooLarge),
            new_nblocks >= self.current_nblocks && new_nblocks - self.current_nblocks
                <= MAX_GROW_BLOCKS ==> r == Ok::<usize, Error>(new_nblocks),
    {
        if new_nblocks < self.current_nblocks {
            return Err(Error::CannotShrink);
        }
        if new_nblocks - self.current_nblocks > ResizeSize::gigs(8).nblocks() {
            return Err(Error::GrowTooLarge);
        }
        Ok(new_nblocks)
    }
}

/// Law: once `grow_to` has decided a new size `n`, growing the image of
/// `n` blocks to the same target has nothing left to do.
pub proof fn law_grow_to_idempotent(current: nat, sealed: bool, target: nat, n: nat)
    requires
        spec_grow_to(current, sealed, target) == Ok::<Option<nat>, Error>(Some(n)),
    ensures
        spec_grow_to(n, sealed, target) == Ok::<Option<nat>, Error>(None),
{
}

/// Law: a sealed image is never grown: `grow_to` either has nothing to do
/// or refuses with `Sealed`.
pub proof fn law_sealed_never_grows(current: nat, target: nat)
    ensures
        spec_grow_to(current, true, target) == Ok::<Option<nat>, Error>(None)
            || spec_grow_to(current, true, target) == Err::<Option<nat>, Error>(Error::Sealed),
{
}

/// Law: an image never grows by more than 8 gigabytes in one step.
pub proof fn law_growth_bounded(current: nat, sealed: bool, target: nat, n: nat)
    requires
        spec_grow_to(current, sealed, target) == Ok::<Option<nat>, Error>(Some(n)),
    ensures
        current < n <= current + MAX_GROW_BLOCKS,
        n == target,
{
}

} // verus!
