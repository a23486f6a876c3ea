//! The activation state of a RealmFS image.
//!
//! An unsealed RealmFS is activated by attaching a loop device and mounting
//! it both read-write and read-only; a sealed one by setting up a dm-verity
//! device and mounting it.
use vstd::prelude::*;

use crate::error::Error;
use crate::path::spec_path_eq;
use crate::realmfs::mountpoint::{Mountpoint, has_parts, spec_mountpoint_path, spec_mp_realmfs, spec_mp_tag};
use crate::system::loopdev::{LoopDevice, is_loop_mount_of};
use crate::system::mounts::{Mounts, spec_field, spec_mount_lines};
use crate::text::{spec_lines, str_eq};

verus! {

/// Model of an activation.
pub enum ActivationView {
    Loop { ro_mountpoint: Seq<char>, rw_mountpoint: Seq<char>, device: Seq<char> },
    Verity { mountpoint: Seq<char>, device: Seq<char> },
}

/// `mp` is in `set`, comparing paths component by component.
pub open spec fn in_set(set: Seq<Seq<char>>, mp: Seq<char>) -> bool {
    exists|i: int| 0 <= i < set.len() && spec_path_eq(#[trigger] set[i], mp)
}

/// The paths of a set of mountpoints.
pub open spec fn mountpoints_view(set: Seq<Mountpoint>) -> Seq<Seq<char>> {
    set.map_values(|m: Mountpoint| m@)
}

/// An activation is in use when one of its mountpoints is in `set`.
pub open spec fn spec_in_use(a: ActivationView, set: Seq<Seq<char>>) -> bool {
    match a {
        ActivationView::Loop { ro_mountpoint, rw_mountpoint, .. } => in_set(set, ro_mountpoint)
            || in_set(set, rw_mountpoint),
        ActivationView::Verity { mountpoint, .. } => in_set(set, mountpoint),
    }
}

/// `mp` is one of the mountpoints of activation `a`.
pub open spec fn spec_is_mountpoint(a: ActivationView, mp: Seq<char>) -> bool {
    match a {
        ActivationView::Loop { ro_mountpoint, rw_mountpoint, .. } => spec_path_eq(mp, ro_mountpoint)
            || spec_path_eq(mp, rw_mountpoint),
        ActivationView::Verity { mountpoint, .. } => spec_path_eq(mp, mountpoint),
    }
}

/// A RealmFS in an activated state.
#[derive(Debug)]
pub enum Activation {
    /// An unsealed RealmFS: a loop device mounted read-write and, through a
    /// bind mount, read-only.
    Loop { ro_mountpoint: Mountpoint, rw_mountpoint: Mountpoint, device: LoopDevice },
    /// A sealed RealmFS: a dm-verity device (`device`, in /dev/mapper) mounted
    /// at `mountpoint`.
    Verity { mountpoint: Mountpoint, device: String },
}

impl View for Activation {
    type V = ActivationView;

    closed spec fn view(&self) -> ActivationView {
        match self {
            Activation::Loop { ro_mountpoint, rw_mountpoint, device } => ActivationView::Loop {
                ro_mountpoint: ro_mountpoint@,
                rw_mountpoint: rw_mountpoint@,
                device: device@,
            },
            Activation::Verity { mountpoint, device } => ActivationView::Verity {
                mountpoint: mountpoint@,
                device: device@,
            },
        }
    }
}

/// `true` when `mp` is in `set`.
fn set_contains(set: &Vec<Mountpoint>, mp: &Mountpoint) -> (r: bool)
    ensures
        r == in_set(mountpoints_view(set@), mp@),
{
    let mut i: usize = 0;
    while i < set.len()
        invariant
            i <= set@.len(),
            forall|j: int| 0 <= j < i ==> !spec_path_eq(#[trigger] mountpoints_view(set@)[j], mp@),
        decreases set@.len() - i,
    {
        if set[i].same(mp) {
            assert(mountpoints_view(set@)[i as int] == set@[i as int]@);
            return true;
        }
        assert(mountpoints_view(set@)[i as int] == set@[i as int]@);
        i += 1;
    }
    false
}

impl Activation {
    /// A loop activation.
    pub fn new_loop(ro_mountpoint: Mountpoint, rw_mountpoint: Mountpoint, device: LoopDevice) -> (a: Self)
        ensures
            a@ == (ActivationView::Loop {
                ro_mountpoint: ro_mountpoint@,
                rw_mountpoint: rw_mountpoint@,
                device: device@,
            }),
    {
        Activation::Loop { ro_mountpoint, rw_mountpoint, device }
    }

    /// A verity activation.
    pub fn new_verity(mountpoint: Mountpoint, device: String) -> (a: Self)
        ensures
            a@ == (ActivationView::Verity { mountpoint: mountpoint@, device: device@ }),
    {
        Activation::Verity { mountpoint, device }
    }

    /// The activation that an entry of the RealmFS run directory stands for.
    ///
    /// For an `ro` or `rw` mountpoint it is the loop activation of the
    /// loop device that `mounts` shows mounted there; otherwise it is the
    /// verity activation of the device named by
    /// `Verity::device_name_for_mountpoint`, present only if
    /// `verity_device_exists` (whether that device exists in /dev/mapper).
    pub fn for_mountpoint(mountpoint: &Mountpoint, mounts: &Mounts, verity_device: String, verity_device_exists: bool) -> (r: Option<Self>)
        requires
            has_parts(mountpoint@),
        ensures
            ({
                let tag = spec_mp_tag(mountpoint@);
                let name = spec_mp_realmfs(mountpoint@);
                let ml = spec_mount_lines(spec_lines(mounts@));
                if tag == "rw"@ || tag == "ro"@ {
                    match r {
                        Some(a) => exists|i: int|
                            0 <= i < ml.len() && is_loop_mount_of(#[trigger] ml[i], mountpoint@)
                                && a@ == (ActivationView::Loop {
                                ro_mountpoint: spec_mountpoint_path(name, "ro"@),
                                rw_mountpoint: spec_mountpoint_path(name, "rw"@),
                                device: spec_field(ml[i], 0),
                            }),
                        None => forall|i: int|
                            0 <= i < ml.len() ==> !is_loop_mount_of(#[trigger] ml[i], mountpoint@),
                    }
                } else {
                    match r {
                        Some(a) => verity_device_exists && a@ == (ActivationView::Verity {
                            mountpoint: mountpoint@,
                            device: verity_device@,
                        }),
                        None => !verity_device_exists,
                    }
                }
            }),
    {
        let tag = mountpoint.tag();
        if str_eq(tag.as_str(), "rw") || str_eq(tag.as_str(), "ro") {
            match LoopDevice::find_mounted_loop(mounts, mountpoint.path()) {
                Some(loopdev) => {
                    let name = mountpoint.realmfs();
                    let (ro, rw) = Mountpoint::new_loop_pair(name.as_str());
                    Some(Self::new_loop(ro, rw, loopdev))
                },
                None => None,
            }
        } else {
            if verity_device_exists {
                Some(Self::new_verity(mountpoint.copy(), verity_device))
            } else {
                None
            }
        }
    }

    /// `true` if `mp` is a mountpoint of this activation.
    pub fn is_mountpoint(&self, mp: &Mountpoint) -> (r: bool)
        ensures
            r == spec_is_mountpoint(self@, mp@),
    {
        match self {
            Activation::Loop { ro_mountpoint, rw_mountpoint, .. } => {
                mp.same(ro_mountpoint) || mp.same(rw_mountpoint)
            },
            Activation::Verity { mountpoint, .. } => mp.same(mountpoint),
        }
    }

    /// The read-only mountpoint.
    pub fn mountpoint(&self) -> (r: &Mountpoint)
        ensures
            r@ == match self@ {
                ActivationView::Loop { ro_mountpoint, .. } => ro_mountpoint,
                ActivationView::Verity { mountpoint, .. } => mountpoint,
            },
    {
        match self {
            Activation::Loop { ro_mountpoint, .. } => ro_mountpoint,
            Activation::Verity { mountpoint, .. } => mountpoint,
        }
    }

    /// The read-write mountpoint, which only a loop activation has.
    pub fn mountpoint_rw(&self) -> (r: Option<&Mountpoint>)
        ensures
            match self@ {
                ActivationView::Loop { rw_mountpoint, .. } => r matches Some(m) && m@ == rw_mountpoint,
                ActivationView::Verity { .. } => r is None,
            },
    {
        match self {
            Activation::Loop { rw_mountpoint, .. } => Some(rw_mountpoint),
            Activation::Verity { .. } => None,
        }
    }

    /// The device: a loop device or a device in /dev/mapper.
    pub fn device(&self) -> (r: &str)
        ensures
            r@ == match self@ {
                ActivationView::Loop { device, .. } => device,
                ActivationView::Verity { device, .. } => device,
            },
    {
        match self {
            Activation::Loop { device, .. } => device.device_str(),
            Activation::Verity { device, .. } => device.as_str(),
        }
    }

    /// `true` if the activation is in use by some realm: one of its
    /// mountpoints is in `active_set`.
    pub fn in_use(&self, active_set: &Vec<Mountpoint>) -> (r: bool)
        ensures
            r == spec_in_use(self@, mountpoints_view(active_set@)),
    {
        match self {
            Activation::Loop { ro_mountpoint: ro, rw_mountpoint: rw, .. } => {
                set_contains(active_set, ro) || set_contains(active_set, rw)
            },
            Activation::Verity { mountpoint, .. } => set_contains(active_set, mountpoint),
        }
    }
}

/// The activation status of a RealmFS: `None` when it is not activated.
pub struct ActivationState {
    state: Option<Activation>,
}

impl View for ActivationState {
    type V = Option<ActivationView>;

    closed spec fn view(&self) -> Option<ActivationView> {
        match self.state {
            Some(a) => Some(a@),
            None => None,
        }
    }
}

impl ActivationState {
    /// Not activated.
    pub fn new() -> (s: Self)
        ensures
            s@ is None,
    {
        ActivationState { state: None }
    }

    /// The current activation, if activated.
    pub fn get(&self) -> (r: Option<&Activation>)
        ensures
            match r {
                Some(a) => self@ == Some(a@),
                None => self@ is None,
            },
    {
        match &self.state {
            Some(a) => Some(a),
            None => None,
        }
    }

    /// Return `true` if currently activated.
    pub fn is_activated(&self) -> (r: bool)
        ensures
            r == self@ is Some,
    {
        self.state.is_some()
    }

    /// Records the outcome of activating the RealmFS. The caller builds the
    /// devices and mounts of an activation only when `is_activated` is
    /// `false`, and hands the outcome here: an activation is recorded and
    /// `Ok(true)` returned, a failure is returned and nothing recorded. When
    /// already activated the current activation is kept and `Ok(false)`
    /// returned.
    pub fn activate(&mut self, outcome: Result<Activation, Error>) -> (r: Result<bool, Error>)
        ensures
            old(self)@ is Some ==> r == Ok::<bool, Error>(false) && final(self)@ == old(self)@,
            old(self)@ is None ==> match outcome {
                Ok(a) => r == Ok::<bool, Error>(true) && final(self)@ == Some(a@),
                Err(e) => r == Err::<bool, Error>(e) && final(self)@ is None,
            },
    {
        if self.state.is_some() {
            return Ok(false);
        }
        match outcome {
            Ok(a) => {
                self.state = Some(a);
                Ok(true)
            },
            Err(e) => Err(e),
        }
    }

    /// Whether the current activation is to be torn down: activated and not
    /// in use by a realm (no mountpoint in `active_set`).
    pub fn needs_teardown(&self, active_set: &Vec<Mountpoint>) -> (r: bool)
        ensures
            r == (self@ matches Some(a) && !spec_in_use(a, mountpoints_view(active_set@))),
    {
        match &self.state {
            Some(activation) => !activation.in_use(active_set),
            None => false,
        }
    }

    /// Deactivates, only if activated and not in use by a realm. `teardown`
    /// is the outcome of unmounting and removing the devices of the
    /// activation, which the caller does only when `needs_teardown` is
    /// `true`: when it failed the activation is kept and the failure
    /// returned. Returns `Ok(true)` if the state changed from activated to
    /// not activated.
    pub fn deactivate(&mut self, active_set: &Vec<Mountpoint>, teardown: Result<(), Error>) -> (r: Result<bool, Error>)
        ensures
            !(old(self)@ matches Some(a) && !spec_in_use(a, mountpoints_view(active_set@))) ==> r
                == Ok::<bool, Error>(false) && final(self)@ == old(self)@,
            (old(self)@ matches Some(a) && !spec_in_use(a, mountpoints_view(active_set@))) ==> match teardown {
                Ok(_) => r == Ok::<bool, Error>(true) && final(self)@ is None,
                Err(e) => r == Err::<bool, Error>(e) && final(self)@ == old(self)@,
            },
    {
        if !self.needs_teardown(active_set) {
            return Ok(false);
        }
        match teardown {
            Ok(_) => {
                self.state = None;
                Ok(true)
            },
            Err(e) => Err(e),
        }
    }

    /// A realm released mountpoint `mp`. If `mp` belongs to the current
    /// activation, the activation is deactivated (see `deactivate`, with the
    /// outcome `teardown` of tearing it down); a failure of that leaves the
    /// activation as it was. Returns `true` if `mp` belongs to the
    /// activation.
    pub fn release_mountpoint(&mut self, mp: &Mountpoint, active_set: &Vec<Mountpoint>, teardown: Result<(), Error>) -> (r: bool)
        ensures
            r == (old(self)@ matches Some(a) && spec_is_mountpoint(a, mp@)),
            r && !spec_in_use(old(self)@.unwrap(), mountpoints_view(active_set@)) && teardown is Ok
                ==> final(self)@ is None,
            r && (spec_in_use(old(self)@.unwrap(), mountpoints_view(active_set@)) || teardown is Err)
                ==> final(self)@ == old(self)@,
            !r ==> final(self)@ == old(self)@,
    {
        let ours = match &self.state {
            Some(a) => a.is_mountpoint(mp),
            None => false,
        };
        if ours {
            let _ = self.deactivate(active_set, teardown);
        }
        ours
    }

    /// Return `true` if an activation exists and is in use by some realm.
    pub fn is_in_use(&self, active_set: &Vec<Mountpoint>) -> (r: bool)
        ensures
            r == (self@ matches Some(a) && spec_in_use(a, mountpoints_view(active_set@))),
    {
        match &self.state {
            Some(a) => a.in_use(active_set),
            None => false,
        }
    }
}

/// An activation in use stays activated: `deactivate` only releases an
/// activation none of whose mountpoints is in the active set, and
/// `activate` never replaces an existing activation.
pub proof fn law_in_use_not_released(a: ActivationView, set: Seq<Seq<char>>)
    requires
        spec_in_use(a, set),
    ensures
        !(Some(a) matches Some(x) && !spec_in_use(x, set)),
{
}

/// Law: an activation is in use exactly when the active set holds one of
/// its mountpoints (for a verity activation, its single mountpoint; for a
/// loop activation, either of the pair), whatever the kind of activation.
pub proof fn law_in_use_iff_mountpoint_active(a: ActivationView, set: Seq<Seq<char>>)
    ensures
        forall|m: Seq<char>| set.contains(m) && spec_is_mountpoint(a, m) ==> spec_in_use(a, set),
        spec_in_use(a, set) ==> exists|m: Seq<char>| set.contains(m) && spec_is_mountpoint(a, m),
{
    assert forall|m: Seq<char>| set.contains(m) && spec_is_mountpoint(a, m) implies spec_in_use(a, set) by {
        let i = choose|i: int| 0 <= i < set.len() && set[i] == m;
        match a {
            ActivationView::Loop { ro_mountpoint, rw_mountpoint, .. } => {
                if spec_path_eq(m, ro_mountpoint) {
                    assert(spec_path_eq(set[i], ro_mountpoint));
                } else {
                    assert(spec_path_eq(set[i], rw_mountpoint));
                }
            },
            ActivationView::Verity { mountpoint, .. } => {
                assert(spec_path_eq(set[i], mountpoint));
            },
        }
    }
    if spec_in_use(a, set) {
        match a {
            ActivationView::Loop { ro_mountpoint, rw_mountpoint, .. } => {
                if in_set(set, ro_mountpoint) {
                    let i = choose|i: int| 0 <= i < set.len() && spec_path_eq(#[trigger] set[i], ro_mountpoint);
                    assert(set.contains(set[i]) && spec_is_mountpoint(a, set[i]));
                } else {
                    let i = choose|i: int| 0 <= i < set.len() && spec_path_eq(#[trigger] set[i], rw_mountpoint);
                    assert(set.contains(set[i]) && spec_is_mountpoint(a, set[i]));
                }
            },
            ActivationView::Verity { mountpoint, .. } => {
                let i = choose|i: int| 0 <= i < set.len() && spec_path_eq(#[trigger] set[i], mountpoint);
                assert(set.contains(set[i]) && spec_is_mountpoint(a, set[i]));
            },
        }
    }
}

} // verus!
