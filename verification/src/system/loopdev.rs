//! Loop devices.
use vstd::prelude::*;

use crate::path::{path_eq, spec_path_eq};
use crate::system::mounts::{Mounts, spec_field, spec_mount_lines};
use crate::text::{
    decimal, decimal_string, lines, spec_split_whitespace, push_str, spec_lines, spec_split_once, spec_starts_with,
    split_once, starts_with, strings_view, to_owned_string,
};

verus! {

/// A mount line whose target is `target` and whose source is a loop device.
pub open spec fn is_loop_mount_of(line: Seq<char>, target: Seq<char>) -> bool {
    spec_path_eq(spec_field(line, 1), target) && spec_starts_with(spec_field(line, 0), "/dev/loop"@)
}

/// The device names in the output of `losetup -j`: the text before the first
/// `':'` of each line.
pub open spec fn spec_losetup_devices(lines: Seq<Seq<char>>) -> Seq<Seq<char>> {
    lines.map_values(|l: Seq<char>| spec_split_once(l, ':').0)
}

/// Arguments for `losetup` to attach `image`.
pub open spec fn spec_create_args(image: Seq<char>, offset: Option<usize>, read_only: bool) -> Seq<char> {
    (match offset {
        Some(o) => "--offset "@ + decimal(o as nat) + " "@,
        None => seq![],
    }) + (if read_only {
        "--read-only "@
    } else {
        seq![]
    }) + "-f --show "@ + image
}

/// A loop device, named by its device path.
#[derive(Debug)]
pub struct LoopDevice(String);

impl View for LoopDevice {
    type V = Seq<char>;

    closed spec fn view(&self) -> Seq<char> {
        self.0@
    }
}

impl LoopDevice {
    /// The loop device at `device`.
    pub fn new(device: &str) -> (d: LoopDevice)
        ensures
            d@ == device@,
    {
        LoopDevice(to_owned_string(device))
    }

    /// Arguments for `losetup` to attach `image`, with an optional offset and
    /// read-only; the command prints the new device.
    pub fn create_args(image: &str, offset: Option<usize>, read_only: bool) -> (r: String)
        ensures
            r@ == spec_create_args(image@, offset, read_only),
    {
        let mut args = String::new();
        if let Some(offset) = offset {
            push_str(&mut args, "--offset ");
            let n = decimal_string(offset as u64);
            push_str(&mut args, n.as_str());
            push_str(&mut args, " ");
        }
        if read_only {
            push_str(&mut args, "--read-only ");
        }
        push_str(&mut args, "-f --show ");
        push_str(&mut args, image);
        proof {
            let o = match offset {
                Some(o) => "--offset "@ + decimal(o as nat) + " "@,
                None => seq![],
            };
            let ro = if read_only {
                "--read-only "@
            } else {
                seq![]
            };
            assert(args@ =~= o + ro + "-f --show "@ + image@);
        }
        args
    }

    /// The loop device mounted on `mount_target` according to `mounts`: the
    /// source of the first mount line whose target is `mount_target` and
    /// whose source starts with `/dev/loop`.
    pub fn find_mounted_loop(mounts: &Mounts, mount_target: &str) -> (r: Option<LoopDevice>)
        ensures
            match r {
                Some(d) => exists|i: int|
                    0 <= i < spec_mount_lines(spec_lines(mounts@)).len() && is_loop_mount_of(
                        #[trigger] spec_mount_lines(spec_lines(mounts@))[i],
                        mount_target@,
                    ) && d@ == spec_field(spec_mount_lines(spec_lines(mounts@))[i], 0) && forall|
                        j: int,
                    |
                        0 <= j < i ==> !is_loop_mount_of(
                            #[trigger] spec_mount_lines(spec_lines(mounts@))[j],
                            mount_target@,
                        ),
                None => forall|i: int|
                    0 <= i < spec_mount_lines(spec_lines(mounts@)).len() ==> !is_loop_mount_of(
                        #[trigger] spec_mount_lines(spec_lines(mounts@))[i],
                        mount_target@,
                    ),
            },
    {
        let ms = mounts.mounts();
        let ghost ml = spec_mount_lines(spec_lines(mounts@));
        let mut i: usize = 0;
        while i < ms.len()
            invariant
                i <= ms@.len(),
                ms@.len() == ml.len(),
                ml == spec_mount_lines(spec_lines(mounts@)),
                forall|j: int| 0 <= j < ms@.len() ==> (#[trigger] ms@[j])@ == ml[j],
                forall|j: int| 0 <= j < ms@.len() ==> spec_split_whitespace((#[trigger] ms@[j])@).len() >= 4,
                forall|j: int| 0 <= j < i ==> !is_loop_mount_of(#[trigger] ml[j], mount_target@),
            decreases ms@.len() - i,
        {
            assert(ms@[i as int]@ == ml[i as int]);
            let target = ms[i].target_path();
            let source = ms[i].source();
            if path_eq(target.as_str(), mount_target) && starts_with(source.as_str(), "/dev/loop") {
                return Some(LoopDevice(source));
            }
            i += 1;
        }
        None
    }

    /// The loop devices named in the output of `losetup -j image`, whose lines
    /// look like `/dev/loop1: [0036]:64845938 (/path/image.img), offset 4096`.
    pub fn find_devices_for(output: &str) -> (r: Vec<LoopDevice>)
        ensures
            r@.len() == spec_losetup_devices(spec_lines(output@)).len(),
            forall|i: int| 0 <= i < r@.len() ==> (#[trigger] r@[i])@ == spec_losetup_devices(
                spec_lines(output@),
            )[i],
    {
        let ls = lines(output);
        let ghost lv = strings_view(ls@);
        let mut out: Vec<LoopDevice> = Vec::new();
        let mut i: usize = 0;
        while i < ls.len()
            invariant
                i <= ls@.len(),
                lv == strings_view(ls@),
                lv == spec_lines(output@),
                out@.len() == i,
                forall|j: int| 0 <= j < i ==> (#[trigger] out@[j])@ == spec_split_once(lv[j], ':').0,
            decreases ls@.len() - i,
        {
            assert(lv[i as int] == ls@[i as int]@);
            let (dev, _) = split_once(ls[i].as_str(), ':');
            out.push(LoopDevice(dev));
            i += 1;
        }
        out
    }

    /// Path of the device node.
    pub fn device(&self) -> (r: &str)
        ensures
            r@ == self@,
    {
        self.0.as_str()
    }

    /// Path of the device node, as a string.
    pub fn device_str(&self) -> (r: &str)
        ensures
            r@ == self@,
    {
        self.0.as_str()
    }
}

} // verus!
