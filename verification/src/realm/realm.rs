//! A realm: its name and paths, its running state, the rootfs decisions
//! taken when it starts, and the order in which realms are listed.
use vstd::prelude::*;

use crate::error::Error;
use crate::realm::config::OverlayType;
use crate::realmfs::activator::{Activation, ActivationView};
use crate::realmfs::mountpoint::Mountpoint;
use crate::path::{join, spec_join};
use crate::sort::{lemma_text_le_refl, lemma_text_le_total, lemma_text_le_trans, text_le, text_less, TotalOrder};
use crate::text::{
    decimal, decimal_string, parse_unsigned, push_str, spec_parse_unsigned, str_eq, to_owned_string,
};
use crate::util::{is_valid_name, spec_is_valid_name};

verus! {

/// Longest valid realm name.
pub const MAX_REALM_NAME_LEN: usize = 128;

/// Directory holding the directory of each realm.
pub const BASE_PATH: &'static str = "/realms";

/// Directory holding the run directory of each running realm.
pub const RUN_PATH: &'static str = "/run/citadel/realms";

/// Whether `name` is a valid realm name: it begins with an ASCII letter,
/// holds only ASCII letters, digits and dashes, and is 1 to 128 characters long.
pub fn is_valid_realm_name(name: &str) -> (r: bool)
    ensures
        r == spec_is_valid_name(name@, MAX_REALM_NAME_LEN as nat),
{
    is_valid_name(name, MAX_REALM_NAME_LEN)
}

/// The name of a realm's directories: `realm-<name>`.
pub open spec fn spec_dir_name(name: Seq<char>) -> Seq<char> {
    "realm-"@ + name
}

/// `realm-<name>`.
pub fn dir_name(name: &str) -> (r: String)
    ensures
        r@ == spec_dir_name(name@),
{
    let mut s = to_owned_string("realm-");
    push_str(&mut s, name);
    s
}

/// The base directory of a realm, such as `/realms/realm-main`.
pub fn base_path(name: &str) -> (r: String)
    ensures
        r@ == spec_join(BASE_PATH@, spec_dir_name(name@)),
{
    let d = dir_name(name);
    join(BASE_PATH, d.as_str())
}

/// A file in the base directory of a realm.
pub fn base_path_file(name: &str, file: &str) -> (r: String)
    ensures
        r@ == spec_join(spec_join(BASE_PATH@, spec_dir_name(name@)), file@),
{
    let b = base_path(name);
    join(b.as_str(), file)
}

/// The run directory of a realm, such as `/run/citadel/realms/realm-main`.
pub fn run_path(name: &str) -> (r: String)
    ensures
        r@ == spec_join(RUN_PATH@, spec_dir_name(name@)),
{
    let d = dir_name(name);
    join(RUN_PATH, d.as_str())
}

/// A file in the run directory of a realm.
pub fn run_path_file(name: &str, file: &str) -> (r: String)
    ensures
        r@ == spec_join(spec_join(RUN_PATH@, spec_dir_name(name@)), file@),
{
    let b = run_path(name);
    join(b.as_str(), file)
}

/// Whether a realm is running, as far as is known.
#[derive(Debug, Clone, Copy, PartialEq, Eq, Structural)]
pub enum RealmActiveState {
    Active,
    Inactive,
    Unknown,
    Failed,
}

impl RealmActiveState {
    /// The state `systemctl is-active` reports.
    pub fn from_sysctl_output(line: &str) -> (r: RealmActiveState)
        ensures
            r == (if line@ == "active"@ {
                RealmActiveState::Active
            } else if line@ == "inactive"@ {
                RealmActiveState::Inactive
            } else {
                RealmActiveState::Unknown
            }),
    {
        if str_eq(line, "active") {
            RealmActiveState::Active
        } else if str_eq(line, "inactive") {
            RealmActiveState::Inactive
        } else {
            RealmActiveState::Unknown
        }
    }
}

/// The running state of a realm: whether it is active, and the process id
/// of its container's first process once known.
#[derive(Debug, Clone, Copy, PartialEq, Eq, Structural)]
pub struct RealmState {
    pub active: RealmActiveState,
    pub leader_pid: Option<u32>,
}

impl RealmState {
    /// The state of a realm not yet queried.
    pub fn new() -> (r: RealmState)
        ensures
            r == (RealmState { active: RealmActiveState::Unknown, leader_pid: None }),
    {
        RealmState { active: RealmActiveState::Unknown, leader_pid: None }
    }

    /// Records a new active state; a realm that is not active has no leader.
    pub fn set_active_state(&mut self, state: RealmActiveState)
        ensures
            final(self).active == state,
            final(self).leader_pid == (if state == RealmActiveState::Active {
                old(self).leader_pid
            } else {
                None
            }),
    {
        if state != RealmActiveState::Active {
            self.leader_pid = None;
        }
        self.active = state;
    }

    /// Records whether the realm is active.
    pub fn set_active(&mut self, is_active: bool)
        ensures
            final(self).active == (if is_active { RealmActiveState::Active } else { RealmActiveState::Inactive }),
            final(self).leader_pid == (if is_active { old(self).leader_pid } else { None }),
    {
        let state = if is_active {
            RealmActiveState::Active
        } else {
            RealmActiveState::Inactive
        };
        self.set_active_state(state);
    }

    /// Records the leader process id of an active realm.
    pub fn set_leader_pid(&mut self, pid: u32)
        requires
            old(self).active == RealmActiveState::Active,
        ensures
            *final(self) == (RealmState { active: RealmActiveState::Active, leader_pid: Some(pid) }),
    {
        self.leader_pid = Some(pid);
    }

    /// The leader process id, for an active realm whose leader is known.
    pub fn leader_pid(&self) -> (r: Option<u32>)
        ensures
            r == (if self.active == RealmActiveState::Active { self.leader_pid } else { None }),
    {
        if self.active != RealmActiveState::Active {
            return None;
        }
        self.leader_pid
    }
}

/// Law: only an active realm has a leader process, whatever state changes
/// come from a state where that holds.
pub proof fn law_leader_only_when_active(s: RealmState, state: RealmActiveState)
    requires
        s.leader_pid is Some ==> s.active == RealmActiveState::Active,
    ensures
        ({
            let t = RealmState {
                active: state,
                leader_pid: if state == RealmActiveState::Active { s.leader_pid } else { None },
            };
            t.leader_pid is Some ==> t.active == RealmActiveState::Active
        }),
{
}

/// Whether a realm mounts its RealmFS read-only: never with an overlay,
/// always in sealed mode, otherwise unless it is configured to write to it.
pub fn readonly_rootfs(overlay: OverlayType, sealed: bool, realmfs_write: bool) -> (r: bool)
    ensures
        r == (overlay == OverlayType::Disabled && (sealed || !realmfs_write)),
{
    if overlay != OverlayType::Disabled {
        false
    } else if sealed {
        true
    } else {
        !realmfs_write
    }
}

/// Whether a realm uses the writable mountpoint of its RealmFS: only when
/// the image is unsealed and names the realm as its owner.
pub fn use_writable_mountpoint(owner: Option<&str>, realmfs_sealed: bool, realm_name: &str) -> (r: bool)
    ensures
        r == match owner {
            Some(o) => !realmfs_sealed && o@ == realm_name@,
            None => false,
        },
{
    match owner {
        Some(name) => !realmfs_sealed && str_eq(name, realm_name),
        None => false,
    }
}

/// The mountpoint a realm uses: the read-only one, or the writable one,
/// which only a loop activation has.
pub fn choose_mountpoint(writeable: bool, activation: &Activation) -> (r: Result<&Mountpoint, Error>)
    ensures
        !writeable ==> (r matches Ok(m) && m@ == match activation@ {
            ActivationView::Loop { ro_mountpoint, .. } => ro_mountpoint,
            ActivationView::Verity { mountpoint, .. } => mountpoint,
        }),
        writeable ==> match activation@ {
            ActivationView::Loop { rw_mountpoint, .. } => r matches Ok(m) && m@ == rw_mountpoint,
            ActivationView::Verity { .. } => r == Err::<&Mountpoint, Error>(Error::NoWritableMountpoint),
        },
{
    if !writeable {
        Ok(activation.mountpoint())
    } else {
        match activation.mountpoint_rw() {
            Some(m) => Ok(m),
            None => Err(Error::NoWritableMountpoint),
        }
    }
}

/// What orders realms in a listing: its name, whether it is a system
/// realm, whether it is running, and when it was last made current.
pub struct RealmInfo {
    pub name: String,
    pub system: bool,
    pub active: bool,
    pub timestamp: i64,
}

impl RealmInfo {
    /// A copy of the information.
    pub fn copy(&self) -> (r: RealmInfo)
        ensures
            r@ == self@,
    {
        RealmInfo {
            name: to_owned_string(self.name.as_str()),
            system: self.system,
            active: self.active,
            timestamp: self.timestamp,
        }
    }
}

/// The model of realm information.
pub struct RealmInfoView {
    pub name: Seq<char>,
    pub system: bool,
    pub active: bool,
    pub timestamp: i64,
}

impl View for RealmInfo {
    type V = RealmInfoView;

    open spec fn view(&self) -> RealmInfoView {
        RealmInfoView { name: self.name@, system: self.system, active: self.active, timestamp: self.timestamp }
    }
}

/// `a` is listed no later than `b`: ordinary realms before system realms,
/// then running realms before stopped ones, then the most recently
/// current first, then by name.
pub open spec fn realm_le(a: RealmInfoView, b: RealmInfoView) -> bool {
    if a.system != b.system {
        !a.system
    } else if a.active != b.active {
        a.active
    } else if a.timestamp != b.timestamp {
        a.timestamp > b.timestamp
    } else {
        text_le(a.name, b.name)
    }
}

impl TotalOrder for RealmInfo {
    open spec fn order_le(self, other: Self) -> bool {
        realm_le(self@, other@)
    }

    proof fn lemma_order_refl(a: Self) {
        lemma_text_le_refl(a.name@);
    }

    proof fn lemma_order_total(a: Self, b: Self) {
        lemma_text_le_total(a.name@, b.name@);
    }

    proof fn lemma_order_trans(a: Self, b: Self, c: Self) {
        if a.system == b.system && b.system == c.system && a.active == b.active && b.active == c.active
            && a.timestamp == b.timestamp && b.timestamp == c.timestamp {
            lemma_text_le_trans(a.name@, b.name@, c.name@);
        }
    }

    /// As `Ord` on realms compares them.
    fn less(&self, other: &Self) -> (r: bool) {
        if !self.system && other.system {
            true
        } else if self.system && !other.system {
            false
        } else if self.active && !other.active {
            true
        } else if !self.active && other.active {
            false
        } else if self.timestamp == other.timestamp {
            text_less(self.name.as_str(), other.name.as_str())
        } else {
            self.timestamp > other.timestamp
        }
    }
}

/// The root of a running realm's container as seen from outside it:
/// `/proc/<pid>/root` of its leader process.
pub fn proc_rootfs(leader_pid: u32) -> (r: String)
    ensures
        r@ == "/proc/"@ + decimal(leader_pid as nat) + "/root"@,
{
    let mut s = to_owned_string("/proc/");
    let n = decimal_string(leader_pid as u64);
    push_str(&mut s, n.as_str());
    push_str(&mut s, "/root");
    s
}

/// The leader process id that `machinectl show --value -p Leader` printed
/// (its output trimmed), if it is a number that fits a `u32`.
pub fn parse_leader_pid(output: &str) -> (r: Option<u32>)
    ensures
        match spec_parse_unsigned(output@, 10, u32::MAX as nat) {
            Some(n) => r == Some(n as u32),
            None => r is None,
        },
{
    match parse_unsigned(output, 10, u32::MAX as u64) {
        Some(n) => Some(n as u32),
        None => None,
    }
}

/// The forks that provide the RealmFS `name` a realm is configured to use,
/// in order, each as the name forked from and the new name: none when it
/// exists; otherwise a fork of the default RealmFS (itself first forked
/// from `base` when missing), unless `name` is the default. Refused in
/// sealed mode, where no RealmFS can be created, and when neither the
/// default nor `base` exists.
pub open spec fn spec_realmfs_forks(
    name: Seq<char>,
    name_exists: bool,
    sealed: bool,
    default_name: Seq<char>,
    default_exists: bool,
    base_exists: bool,
) -> Result<Seq<(Seq<char>, Seq<char>)>, Error> {
    if name_exists {
        Ok(seq![])
    } else if sealed {
        Err(Error::SealedMode)
    } else {
        let make_default: Result<Seq<(Seq<char>, Seq<char>)>, Error> = if default_exists {
            Ok(seq![])
        } else if base_exists {
            Ok(seq![("base"@, default_name)])
        } else {
            Err(Error::NoDefaultRealmfs)
        };
        match make_default {
            Err(e) => Err(e),
            Ok(steps) => if name == default_name {
                Ok(steps)
            } else {
                Ok(steps.push((default_name, name)))
            },
        }
    }
}

/// The model of a list of forks.
pub open spec fn forks_view(v: Seq<(String, String)>) -> Seq<(Seq<char>, Seq<char>)> {
    v.map_values(|p: (String, String)| (p.0@, p.1@))
}

/// The forks that provide the RealmFS `name`, as `spec_realmfs_forks` gives them.
pub fn realmfs_forks(
    name: &str,
    name_exists: bool,
    sealed: bool,
    default_name: &str,
    default_exists: bool,
    base_exists: bool,
) -> (r: Result<Vec<(String, String)>, Error>)
    ensures
        match spec_realmfs_forks(name@, name_exists, sealed, default_name@, default_exists, base_exists) {
            Ok(steps) => r matches Ok(v) && forks_view(v@) == steps,
            Err(e) => r matches Err(f) && f == e,
        },
{
    if name_exists {
        let v: Vec<(String, String)> = Vec::new();
        assert(forks_view(v@) =~= seq![]);
        return Ok(v);
    }
    if sealed {
        return Err(Error::SealedMode);
    }
    let mut steps: Vec<(String, String)> = Vec::new();
    if !default_exists {
        if !base_exists {
            return Err(Error::NoDefaultRealmfs);
        }
        steps.push((to_owned_string("base"), to_owned_string(default_name)));
    }
    proof {
        reveal_strlit("base");
    }
    assert(forks_view(steps@) =~= if default_exists {
        seq![]
    } else {
        seq![("base"@, default_name@)]
    });
    if !str_eq(name, default_name) {
        let ghost before = steps@;
        steps.push((to_owned_string(default_name), to_owned_string(name)));
        assert(forks_view(steps@) =~= forks_view(before).push((default_name@, name@)));
    }
    Ok(steps)
}

} // verus!
