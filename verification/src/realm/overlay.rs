//! The rootfs overlay of a realm: an overlayfs over the realm's RealmFS
//! mount, with its writable layer on tmpfs or in a btrfs subvolume.
use vstd::prelude::*;

use crate::path::{join, spec_join};
use crate::text::spec_ends_with;
use crate::realm::config::OverlayType;
use crate::text::{push_str, to_owned_string};

verus! {

/// Directory of the realm directories, where storage overlays live.
pub const REALMS_BASE_PATH: &'static str = "/realms";

/// Directory of the realm run directories, where tmpfs overlays live.
pub const REALMS_RUN_PATH: &'static str = "/run/citadel/realms";

/// The overlay of a realm.
pub struct RealmOverlay {
    realm: String,
    overlay: OverlayType,
}

/// The model of an overlay: the realm and the kind of overlay.
pub struct OverlayView {
    pub realm: Seq<char>,
    pub overlay: OverlayType,
}

impl View for RealmOverlay {
    type V = OverlayView;

    closed spec fn view(&self) -> OverlayView {
        OverlayView { realm: self.realm@, overlay: self.overlay }
    }
}

/// The directory holding the overlay of a realm: under the run directory
/// for a tmpfs overlay, under the realms directory for a storage overlay.
pub open spec fn spec_overlay_directory(v: OverlayView) -> Seq<char> {
    spec_join(
        spec_join(
            if v.overlay == OverlayType::TmpFS {
                REALMS_RUN_PATH@
            } else {
                REALMS_BASE_PATH@
            },
            "realm-"@ + v.realm,
        ),
        "overlay"@,
    )
}

impl RealmOverlay {
    #[verifier::type_invariant]
    spec fn inv(self) -> bool {
        self.overlay != OverlayType::Disabled
    }

    /// The overlay a realm is configured to use, if any.
    pub fn for_realm(realm: &str, overlay: OverlayType) -> (r: Option<RealmOverlay>)
        ensures
            overlay == OverlayType::Disabled ==> r is None,
            overlay != OverlayType::Disabled ==> (r matches Some(o) && o@ == (OverlayView { realm: realm@, overlay })),
    {
        match overlay {
            OverlayType::Disabled => None,
            _ => Some(RealmOverlay::new(realm, overlay)),
        }
    }

    fn new(realm: &str, overlay: OverlayType) -> (r: RealmOverlay)
        requires
            overlay != OverlayType::Disabled,
        ensures
            r@ == (OverlayView { realm: realm@, overlay }),
    {
        RealmOverlay { realm: to_owned_string(realm), overlay }
    }

    /// The kind of overlay.
    pub fn overlay(&self) -> (r: OverlayType)
        ensures
            r == self@.overlay,
            r != OverlayType::Disabled,
    {
        proof {
            use_type_invariant(self);
        }
        self.overlay
    }

    /// The directory holding the overlay.
    pub fn overlay_directory(&self) -> (r: String)
        ensures
            r@ == spec_overlay_directory(self@),
    {
        let base = match self.overlay {
            OverlayType::TmpFS => REALMS_RUN_PATH,
            _ => REALMS_BASE_PATH,
        };
        let mut d = to_owned_string("realm-");
        push_str(&mut d, self.realm.as_str());
        let b = join(base, d.as_str());
        join(b.as_str(), "overlay")
    }

    /// A directory inside the overlay directory: `upperdir`, `workdir`,
    /// `mountpoint`, or the `lower` link.
    pub fn overlay_path(&self, name: &str) -> (r: String)
        ensures
            r@ == spec_join(spec_overlay_directory(self@), name@),
    {
        let base = self.overlay_directory();
        join(base.as_str(), name)
    }

    /// The arguments of `mount` that set up the overlay over `lower`.
    pub fn mount_args(&self, lower: &str) -> (r: String)
        ensures
            r@ == "-t overlay realm-"@ + self@.realm + "-overlay -olowerdir="@ + lower@ + ",upperdir="@
                + spec_join(spec_overlay_directory(self@), "upperdir"@) + ",workdir="@ + spec_join(
                spec_overlay_directory(self@),
                "workdir"@,
            ) + " "@ + spec_join(spec_overlay_directory(self@), "mountpoint"@),
    {
        let upper = self.overlay_path("upperdir");
        let work = self.overlay_path("workdir");
        let mountpoint = self.overlay_path("mountpoint");
        let mut s = to_owned_string("-t overlay realm-");
        push_str(&mut s, self.realm.as_str());
        push_str(&mut s, "-overlay -olowerdir=");
        push_str(&mut s, lower);
        push_str(&mut s, ",upperdir=");
        push_str(&mut s, upper.as_str());
        push_str(&mut s, ",workdir=");
        push_str(&mut s, work.as_str());
        push_str(&mut s, " ");
        push_str(&mut s, mountpoint.as_str());
        s
    }

    /// The arguments of `btrfs` that create (`create`) or delete the
    /// subvolume of a storage overlay.
    pub fn subvolume_args(&self, create: bool) -> (r: String)
        ensures
            r@ == (if create { "subvolume create "@ } else { "subvolume delete "@ }) + spec_overlay_directory(self@),
    {
        let dir = self.overlay_directory();
        let mut s = if create {
            to_owned_string("subvolume create ")
        } else {
            to_owned_string("subvolume delete ")
        };
        push_str(&mut s, dir.as_str());
        s
    }
}

/// The overlays a realm may have left behind, in the order they are
/// removed: storage, then tmpfs.
pub fn leftover_overlays(realm: &str) -> (r: Vec<RealmOverlay>)
    ensures
        r@.len() == 2,
        r@[0]@ == (OverlayView { realm: realm@, overlay: OverlayType::Storage }),
        r@[1]@ == (OverlayView { realm: realm@, overlay: OverlayType::TmpFS }),
{
    let mut v: Vec<RealmOverlay> = Vec::new();
    v.push(RealmOverlay::new(realm, OverlayType::Storage));
    v.push(RealmOverlay::new(realm, OverlayType::TmpFS));
    v
}

/// Law: the overlay directory is fixed by the kind of overlay. A tmpfs
/// overlay lies in the realm's run directory,
/// `/run/citadel/realms/realm-<name>/overlay`; a storage overlay lies in the
/// realm's directory on storage, `/realms/realm-<name>/overlay`.
pub proof fn law_overlay_directory_by_kind(realm: Seq<char>, overlay: OverlayType)
    requires
        overlay != OverlayType::Disabled,
        !spec_ends_with(realm, seq!['/']),
    ensures
        overlay == OverlayType::TmpFS ==> spec_overlay_directory(OverlayView { realm, overlay })
            == "/run/citadel/realms/realm-"@ + realm + "/overlay"@,
        overlay == OverlayType::Storage ==> spec_overlay_directory(OverlayView { realm, overlay })
            == "/realms/realm-"@ + realm + "/overlay"@,
{
    reveal_strlit("/run/citadel/realms");
    reveal_strlit("/realms");
    reveal_strlit("realm-");
    reveal_strlit("overlay");
    reveal_strlit("/run/citadel/realms/realm-");
    reveal_strlit("/realms/realm-");
    reveal_strlit("/overlay");
    let name = "realm-"@ + realm;
    assert(name[0] == 'r');
    assert("overlay"@[0] == 'o');
    let base = if overlay == OverlayType::TmpFS {
        REALMS_RUN_PATH@
    } else {
        REALMS_BASE_PATH@
    };
    assert(!spec_ends_with(base, seq!['/'])) by {
        if spec_ends_with(base, seq!['/']) {
            assert(base.subrange(base.len() - 1, base.len() as int)[0] == base[base.len() - 1]);
        }
    }
    let d = base + seq!['/'] + name;
    assert(spec_join(base, name) == d) by {
        assert(base + "/"@ + name =~= d) by {
            reveal_strlit("/");
        }
    }
    assert(!spec_ends_with(d, seq!['/'])) by {
        if spec_ends_with(d, seq!['/']) {
            assert(d.subrange(d.len() - 1, d.len() as int)[0] == d[d.len() - 1]);
            if realm.len() > 0 {
                assert(d[d.len() - 1] == realm[realm.len() - 1]);
                assert(realm.subrange(realm.len() - 1, realm.len() as int) =~= seq!['/']);
            } else {
                assert(d[d.len() - 1] == '-');
            }
        }
    }
    assert(spec_join(d, "overlay"@) =~= d + "/"@ + "overlay"@) by {
        reveal_strlit("/");
    }
    if overlay == OverlayType::TmpFS {
        assert(d + "/"@ + "overlay"@ =~= "/run/citadel/realms/realm-"@ + realm + "/overlay"@) by {
            reveal_strlit("/");
        }
    } else {
        assert(d + "/"@ + "overlay"@ =~= "/realms/realm-"@ + realm + "/overlay"@) by {
            reveal_strlit("/");
        }
    }
}

} // verus!
