//! Updating a RealmFS image: an unsealed image is updated in place; a
//! sealed image through a writable copy that is sealed again and put in
//! place of the image when the update is applied.
use vstd::prelude::*;

use crate::text::{push_str, to_owned_string};

verus! {

/// How an update is being made.
#[derive(Debug, Clone, Copy, PartialEq, Eq, Structural)]
pub enum UpdateType {
    /// Not set up yet, or cleaned up.
    NotSetup,
    /// Through a writable copy of a sealed image.
    Sealed,
    /// In place, on an unsealed image.
    Unsealed,
}

/// A step the caller performs for an update.
#[derive(Debug, Clone, Copy, PartialEq, Eq, Structural)]
pub enum UpdateAction {
    /// Seal the copy under the name of the image being updated.
    SealCopy,
    /// Rename the copy over the image file being updated.
    RenameCopyOverImage,
    /// Deactivate the copy.
    DeactivateCopy,
    /// Remove the copy's file, if it still exists.
    RemoveCopyIfExists,
    /// Deactivate the image being updated.
    DeactivateImage,
    /// Release the network address allocated to the update shell.
    FreeNetwork,
}

/// The state of an update.
#[derive(Debug, Clone, Copy, PartialEq, Eq, Structural)]
pub struct Update {
    pub update_type: UpdateType,
    pub network_allocated: bool,
}

/// The steps of cleaning up an update in state `u`.
pub open spec fn spec_cleanup_actions(u: Update) -> Seq<UpdateAction> {
    (match u.update_type {
        UpdateType::Sealed => seq![UpdateAction::DeactivateCopy, UpdateAction::RemoveCopyIfExists],
        UpdateType::Unsealed => seq![UpdateAction::DeactivateImage],
        UpdateType::NotSetup => Seq::empty(),
    }) + if u.network_allocated {
        seq![UpdateAction::FreeNetwork]
    } else {
        Seq::empty()
    }
}

/// The state after a clean up.
pub open spec fn cleaned() -> Update {
    Update { update_type: UpdateType::NotSetup, network_allocated: false }
}

impl Update {
    /// An update not yet set up.
    pub fn new() -> (r: Update)
        ensures
            r == cleaned(),
    {
        Update { update_type: UpdateType::NotSetup, network_allocated: false }
    }

    /// Sets up an update of an image that is `sealed` or not.
    pub fn setup(&mut self, sealed: bool)
        ensures
            final(self).update_type == (if sealed { UpdateType::Sealed } else { UpdateType::Unsealed }),
            final(self).network_allocated == old(self).network_allocated,
    {
        self.update_type = if sealed {
            UpdateType::Sealed
        } else {
            UpdateType::Unsealed
        };
    }

    /// Whether the update works on the copy rather than the image itself.
    pub fn target_is_copy(&self) -> (r: bool)
        ensures
            r == (self.update_type == UpdateType::Sealed),
    {
        self.update_type == UpdateType::Sealed
    }

    /// Records that a network address was allocated to the update shell.
    pub fn set_network_allocated(&mut self)
        ensures
            final(self).network_allocated,
            final(self).update_type == old(self).update_type,
    {
        self.network_allocated = true;
    }

    /// Cleans up: the steps to perform, after which nothing is set up and
    /// no address is held.
    pub fn cleanup(&mut self) -> (r: Vec<UpdateAction>)
        ensures
            r@ == spec_cleanup_actions(*old(self)),
            *final(self) == cleaned(),
    {
        let mut v: Vec<UpdateAction> = Vec::new();
        match self.update_type {
            UpdateType::Sealed => {
                v.push(UpdateAction::DeactivateCopy);
                v.push(UpdateAction::RemoveCopyIfExists);
            },
            UpdateType::Unsealed => {
                v.push(UpdateAction::DeactivateImage);
            },
            UpdateType::NotSetup => {},
        }
        let ghost head = v@;
        if self.network_allocated {
            v.push(UpdateAction::FreeNetwork);
        }
        assert(v@ =~= spec_cleanup_actions(*old(self)));
        self.update_type = UpdateType::NotSetup;
        self.network_allocated = false;
        v
    }

    /// Applies the update: a sealed copy is sealed and put in place of the
    /// image; then everything is cleaned up.
    pub fn apply_update(&mut self) -> (r: Vec<UpdateAction>)
        ensures
            old(self).update_type == UpdateType::Sealed ==> r@ == seq![
                UpdateAction::SealCopy,
                UpdateAction::RenameCopyOverImage,
            ] + spec_cleanup_actions(*old(self)) && *final(self) == cleaned(),
            old(self).update_type == UpdateType::Unsealed ==> r@ == spec_cleanup_actions(*old(self))
                && *final(self) == cleaned(),
            old(self).update_type == UpdateType::NotSetup ==> r@ == Seq::<UpdateAction>::empty()
                && *final(self) == *old(self),
    {
        match self.update_type {
            UpdateType::Sealed => {
                let mut v: Vec<UpdateAction> = Vec::new();
                v.push(UpdateAction::SealCopy);
                v.push(UpdateAction::RenameCopyOverImage);
                let c = self.cleanup();
                let ghost head = v@;
                let mut i: usize = 0;
                while i < c.len()
                    invariant
                        i <= c@.len(),
                        v@ == head + c@.take(i as int),
                    decreases c@.len() - i,
                {
                    v.push(c[i]);
                    assert(c@.take(i + 1) =~= c@.take(i as int).push(c@[i as int]));
                    i += 1;
                }
                assert(c@.take(c@.len() as int) =~= c@);
                assert(head =~= seq![UpdateAction::SealCopy, UpdateAction::RenameCopyOverImage]);
                v
            },
            UpdateType::Unsealed => self.cleanup(),
            UpdateType::NotSetup => Vec::new(),
        }
    }
}

/// The machine name of the update shell of image `name`: `<name>-update`.
pub fn update_name(name: &str) -> (r: String)
    ensures
        r@ == name@ + "-update"@,
{
    let mut s = to_owned_string(name);
    push_str(&mut s, "-update");
    s
}

/// The command run in the update shell that `open_update_shell` opens.
pub const OPEN_SHELL_COMMAND: &'static str = "/usr/libexec/configure-host0.sh && exec /bin/bash";

/// Path of the program that runs the update shell.
pub const SYSTEMD_NSPAWN: &'static str = "/usr/bin/systemd-nspawn";

/// The arguments of `systemd-nspawn` for the update shell of the update
/// machine `name` (see `update_name`), whose root is the writable
/// mountpoint `directory`, with the address `addr` and gateway `gateway`
/// allocated on the clear zone, running `command` in bash.
pub fn update_shell_args(name: &str, directory: &str, addr: &str, gateway: &str, command: &str) -> (r: Vec<String>)
    ensures
        r.deep_view() == seq![
            "--setenv=IFCONFIG_IP="@ + addr@,
            "--setenv=IFCONFIG_GW="@ + gateway@,
            "--quiet"@,
            "--machine="@ + name@,
            "--directory="@ + directory@,
            "--network-zone=clear"@,
            "/bin/bash"@,
            "-c"@,
            command@,
        ],
{
    let mut v: Vec<String> = Vec::new();
    let mut ip = to_owned_string("--setenv=IFCONFIG_IP=");
    push_str(&mut ip, addr);
    v.push(ip);
    let mut gw = to_owned_string("--setenv=IFCONFIG_GW=");
    push_str(&mut gw, gateway);
    v.push(gw);
    v.push(to_owned_string("--quiet"));
    let mut m = to_owned_string("--machine=");
    push_str(&mut m, name);
    v.push(m);
    let mut d = to_owned_string("--directory=");
    push_str(&mut d, directory);
    v.push(d);
    v.push(to_owned_string("--network-zone=clear"));
    v.push(to_owned_string("/bin/bash"));
    v.push(to_owned_string("-c"));
    v.push(to_owned_string(command));
    assert(v.deep_view() =~= seq![
        "--setenv=IFCONFIG_IP="@ + addr@,
        "--setenv=IFCONFIG_GW="@ + gateway@,
        "--quiet"@,
        "--machine="@ + name@,
        "--directory="@ + directory@,
        "--network-zone=clear"@,
        "/bin/bash"@,
        "-c"@,
        command@,
    ]);
    v
}

/// Law: after a clean up, a second clean up has nothing to do.
pub proof fn law_cleanup_idempotent()
    ensures
        spec_cleanup_actions(cleaned()) == Seq::<UpdateAction>::empty(),
{
    assert(spec_cleanup_actions(cleaned()) =~= Seq::<UpdateAction>::empty());
}

/// Law: a clean up releases the network address exactly when one was allocated.
pub proof fn law_cleanup_frees_network(u: Update)
    ensures
        spec_cleanup_actions(u).contains(UpdateAction::FreeNetwork) <==> u.network_allocated,
{
    let s = spec_cleanup_actions(u);
    if u.network_allocated {
        assert(s[s.len() - 1] == UpdateAction::FreeNetwork);
    }
}

} // verus!
