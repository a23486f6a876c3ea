//! Disk partitions as `/proc/partitions` lists them, and the UEFI system
//! partitions among them.
use vstd::prelude::*;

use crate::error::Error;
use crate::path::{join, spec_join};
use crate::text::{
    all_radix_digits, digits_value, is_radix_digit, parse_unsigned, spec_parse_unsigned,
    spec_split_whitespace, split_whitespace, str_eq, strings_view, unsigned_digits,
};

verus! {

/// Partition type GUID of a UEFI system (ESP) partition.
pub const ESP_GUID: &'static str = "c12a7328-f81f-11d2-ba4b-00a0c93ec93b";

/// A disk partition device: a line of `/proc/partitions`.
#[derive(Debug)]
pub struct DiskPartition {
    path: String,
    major: u32,
    minor: u32,
    blocks: usize,
}

/// The model of a disk partition.
pub struct DiskPartitionView {
    /// Path of the device, under `/dev`.
    pub path: Seq<char>,
    /// Major device number.
    pub major: u32,
    /// Minor device number.
    pub minor: u32,
    /// Size in 1024 byte blocks.
    pub blocks: usize,
}

impl View for DiskPartition {
    type V = DiskPartitionView;

    closed spec fn view(&self) -> DiskPartitionView {
        DiskPartitionView { path: self.path@, major: self.major, minor: self.minor, blocks: self.blocks }
    }
}

/// What a line of `/proc/partitions` reads as: four words, the major and
/// minor numbers (each fitting in 32 bits), the number of blocks and the device name.
pub open spec fn spec_from_proc_line(line: Seq<char>) -> Result<DiskPartitionView, Error> {
    let v = spec_split_whitespace(line);
    if v.len() != 4 {
        Err(Error::BadLine)
    } else {
        match (
            spec_parse_unsigned(v[0], 10, u32::MAX as nat),
            spec_parse_unsigned(v[1], 10, u32::MAX as nat),
            spec_parse_unsigned(v[2], 10, usize::MAX as nat),
        ) {
            (Some(major), Some(minor), Some(blocks)) => Ok(
                DiskPartitionView {
                    path: spec_join("/dev"@, v[3]),
                    major: major as u32,
                    minor: minor as u32,
                    blocks: blocks as usize,
                },
            ),
            _ => Err(Error::BadNumber),
        }
    }
}

/// The partitions listed by the lines of `/proc/partitions`, after its
/// two heading lines, in order.
pub open spec fn spec_parse_partitions(lines: Seq<Seq<char>>) -> Result<Seq<DiskPartitionView>, Error>
    decreases lines.len(),
{
    if lines.len() <= 2 {
        Ok(Seq::empty())
    } else {
        match spec_parse_partitions(lines.drop_last()) {
            Err(e) => Err(e),
            Ok(ps) => match spec_from_proc_line(lines.last()) {
                Ok(p) => Ok(ps.push(p)),
                Err(e) => Err(e),
            },
        }
    }
}

impl DiskPartition {
    /// Reads a line of `/proc/partitions`, such as `8 1 523264 sda1`.
    pub fn from_proc_line(line: &str) -> (r: Result<DiskPartition, Error>)
        ensures
            match spec_from_proc_line(line@) {
                Ok(p) => r matches Ok(d) && d@ == p,
                Err(e) => r matches Err(f) && f == e,
            },
    {
        let v = split_whitespace(line);
        if v.len() != 4 {
            return Err(Error::BadLine);
        }
        assert(strings_view(v@)[0] == v@[0]@);
        assert(strings_view(v@)[1] == v@[1]@);
        assert(strings_view(v@)[2] == v@[2]@);
        assert(strings_view(v@)[3] == v@[3]@);
        let major = parse_unsigned(v[0].as_str(), 10, u32::MAX as u64);
        let minor = parse_unsigned(v[1].as_str(), 10, u32::MAX as u64);
        let blocks = parse_unsigned(v[2].as_str(), 10, usize::MAX as u64);
        match (major, minor, blocks) {
            (Some(major), Some(minor), Some(blocks)) => Ok(
                DiskPartition::from_line_components(major as u32, minor as u32, blocks as usize, v[3].as_str()),
            ),
            _ => Err(Error::BadNumber),
        }
    }

    /// The partition with the given numbers and device name.
    pub fn from_line_components(major: u32, minor: u32, blocks: usize, name: &str) -> (r: DiskPartition)
        ensures
            r@ == (DiskPartitionView { path: spec_join("/dev"@, name@), major, minor, blocks }),
    {
        DiskPartition { path: join("/dev", name), major, minor, blocks }
    }

    /// Reads all partitions listed by the lines of `/proc/partitions`.
    pub fn parse_partitions(lines: &Vec<String>) -> (r: Result<Vec<DiskPartition>, Error>)
        ensures
            match spec_parse_partitions(strings_view(lines@)) {
                Ok(ps) => r matches Ok(v) && v@.map_values(|d: DiskPartition| d@) == ps,
                Err(e) => r matches Err(f) && f == e,
            },
    {
        let ghost ls = strings_view(lines@);
        let mut out: Vec<DiskPartition> = Vec::new();
        if lines.len() <= 2 {
            assert(out@.map_values(|d: DiskPartition| d@) =~= Seq::<DiskPartitionView>::empty());
            return Ok(out);
        }
        let mut i: usize = 2;
        assert(ls.take(2).len() == 2);
        assert(spec_parse_partitions(ls.take(2)) == Ok::<Seq<DiskPartitionView>, Error>(Seq::empty()));
        assert(out@.map_values(|d: DiskPartition| d@) =~= Seq::<DiskPartitionView>::empty());
        while i < lines.len()
            invariant
                2 <= i <= lines@.len(),
                ls == strings_view(lines@),
                spec_parse_partitions(ls.take(i as int)) == Ok::<Seq<DiskPartitionView>, Error>(
                    out@.map_values(|d: DiskPartition| d@),
                ),
            decreases lines@.len() - i,
        {
            assert(ls.take(i + 1).drop_last() =~= ls.take(i as int));
            assert(ls.take(i + 1).last() == lines@[i as int]@);
            match DiskPartition::from_proc_line(lines[i].as_str()) {
                Ok(p) => {
                    let ghost before = out@;
                    out.push(p);
                    assert(out@.map_values(|d: DiskPartition| d@) =~= before.map_values(
                        |d: DiskPartition| d@,
                    ).push(p@));
                },
                Err(e) => {
                    proof {
                        lemma_parse_partitions_error(ls, (i + 1) as int);
                    }
                    return Err(e);
                },
            }
            i += 1;
        }
        assert(ls.take(lines@.len() as int) =~= ls);
        Ok(out)
    }

    /// Path of the device.
    pub fn path(&self) -> (r: &str)
        ensures
            r@ == self@.path,
    {
        self.path.as_str()
    }

    /// Major device number.
    pub fn major(&self) -> (r: u32)
        ensures
            r == self@.major,
    {
        self.major
    }

    /// Minor device number.
    pub fn minor(&self) -> (r: u32)
        ensures
            r == self@.minor,
    {
        self.minor
    }

    /// Size in blocks.
    pub fn blocks(&self) -> (r: usize)
        ensures
            r == self@.blocks,
    {
        self.blocks
    }
}

/// Whether a partition type GUID is that of a UEFI system partition.
pub fn is_esp_guid(guid: &str) -> (r: bool)
    ensures
        r == (guid@ == ESP_GUID@),
{
    str_eq(guid, ESP_GUID)
}

proof fn lemma_parse_partitions_error(lines: Seq<Seq<char>>, k: int)
    requires
        2 < k <= lines.len(),
        spec_parse_partitions(lines.take(k)) is Err,
    ensures
        spec_parse_partitions(lines) == spec_parse_partitions(lines.take(k)),
    decreases lines.len() - k,
{
    if k < lines.len() {
        assert(lines.take(k + 1).drop_last() =~= lines.take(k));
        lemma_parse_partitions_error(lines, k + 1);
    } else {
        assert(lines.take(k) =~= lines);
    }
}

/// `w` is a decimal number no larger than `max`.
pub open spec fn is_decimal_at_most(w: Seq<char>, max: nat) -> bool {
    w.len() > 0 && all_radix_digits(w, 10) && digits_value(w, 10) <= max
}

/// A well-formed line of `/proc/partitions`: four words, the first two
/// decimal numbers that fit in 32 bits and the third one that fits in a
/// `usize`.
pub open spec fn is_well_formed_line(line: Seq<char>) -> bool {
    let v = spec_split_whitespace(line);
    &&& v.len() == 4
    &&& is_decimal_at_most(v[0], u32::MAX as nat)
    &&& is_decimal_at_most(v[1], u32::MAX as nat)
    &&& is_decimal_at_most(v[2], usize::MAX as nat)
}

/// Law: a well-formed line reads as the partition it describes, whatever
/// its major and minor numbers (such as the 259 of NVMe devices).
pub proof fn law_well_formed_line_parses(line: Seq<char>)
    requires
        is_well_formed_line(line),
    ensures
        spec_from_proc_line(line) matches Ok(p) && p.path == spec_join(
            "/dev"@,
            spec_split_whitespace(line)[3],
        ) && p.major == digits_value(spec_split_whitespace(line)[0], 10) && p.minor
            == digits_value(spec_split_whitespace(line)[1], 10) && p.blocks == digits_value(
            spec_split_whitespace(line)[2],
            10,
        ),
{
    let v = spec_split_whitespace(line);
    assert forall|k: int| 0 <= k < 3 implies unsigned_digits(#[trigger] v[k]) == v[k] by {
        assert(is_radix_digit(v[k][0], 10));
        assert(v[k][0] != '+');
    }
}

/// Law: when every line after the two heading lines is well formed,
/// `/proc/partitions` reads as one partition per line, in order.
pub proof fn law_well_formed_partitions_parse(lines: Seq<Seq<char>>)
    requires
        forall|i: int| 2 <= i < lines.len() ==> is_well_formed_line(#[trigger] lines[i]),
    ensures
        spec_parse_partitions(lines) matches Ok(ps) && ps.len() == if lines.len() <= 2 {
            0
        } else {
            lines.len() - 2
        },
        forall|i: int|
            2 <= i < lines.len() ==> spec_parse_partitions(lines).unwrap()[i - 2] == spec_from_proc_line(
                #[trigger] lines[i],
            ).unwrap(),
    decreases lines.len(),
{
    if lines.len() > 2 {
        let init = lines.drop_last();
        assert forall|i: int| 2 <= i < init.len() implies is_well_formed_line(#[trigger] init[i]) by {
            assert(init[i] == lines[i]);
        }
        law_well_formed_partitions_parse(init);
        law_well_formed_line_parses(lines.last());
        assert forall|i: int| 2 <= i < lines.len() implies spec_parse_partitions(lines).unwrap()[i
            - 2] == spec_from_proc_line(#[trigger] lines[i]).unwrap() by {
            if i < lines.len() - 1 {
                assert(init[i] == lines[i]);
            }
        }
    }
}

} // verus!
