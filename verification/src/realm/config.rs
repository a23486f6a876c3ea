//! Content of a realm configuration file, with fallback to a parent
//! (global) configuration for every option left unset.
use vstd::prelude::*;

use crate::text::{str_eq, to_owned_string, push_str};

verus! {

/// Type of rootfs overlay a Realm is configured to use.
#[derive(PartialEq, Eq, Structural, Debug, Copy, Clone)]
pub enum OverlayType {
    /// Don't use a rootfs overlay.
    Disabled,
    /// Use a rootfs overlay stored on tmpfs.
    TmpFS,
    /// Use a rootfs overlay stored in a btrfs subvolume.
    Storage,
}

/// The overlay type named by `value`.
pub open spec fn spec_overlay_from_str(value: Seq<char>) -> OverlayType {
    if value == "tmpfs"@ {
        OverlayType::TmpFS
    } else if value == "storage"@ {
        OverlayType::Storage
    } else {
        OverlayType::Disabled
    }
}

/// The name of an overlay type; `None` has no name.
pub open spec fn spec_overlay_name(o: OverlayType) -> Option<Seq<char>> {
    match o {
        OverlayType::Disabled => None,
        OverlayType::TmpFS => Some("tmpfs"@),
        OverlayType::Storage => Some("storage"@),
    }
}

impl OverlayType {
    /// The overlay type named by `value`: "tmpfs" or "storage"; any other
    /// value means no overlay.
    pub fn from_str_value(value: &str) -> (r: OverlayType)
        ensures
            r == spec_overlay_from_str(value@),
    {
        if str_eq(value, "tmpfs") {
            OverlayType::TmpFS
        } else if str_eq(value, "storage") {
            OverlayType::Storage
        } else {
            OverlayType::Disabled
        }
    }

    /// The name of this overlay type as stored in a configuration file.
    pub fn to_str_value(self) -> (r: Option<&'static str>)
        ensures
            match r {
                Some(s) => spec_overlay_name(self) == Some(s@),
                None => spec_overlay_name(self) is None,
            },
    {
        match self {
            OverlayType::Disabled => None,
            OverlayType::TmpFS => Some("tmpfs"),
            OverlayType::Storage => Some("storage"),
        }
    }
}

/// Default network zone.
pub open spec fn default_zone() -> Seq<char> {
    "clear"@
}

/// Default RealmFS.
pub open spec fn default_realmfs() -> Seq<char> {
    "base"@
}

/// The boolean options of a configuration.
#[derive(PartialEq, Eq, Structural, Debug, Copy, Clone)]
pub enum BoolOption {
    SharedDir,
    EphemeralHome,
    Sound,
    X11,
    Wayland,
    Kvm,
    Gpu,
    GpuCard0,
    Network,
    SystemRealm,
    Autostart,
    RealmfsWrite,
}

/// The string options of a configuration.
#[derive(PartialEq, Eq, Structural, Debug, Copy, Clone)]
pub enum StrOption {
    NetworkZone,
    Realmfs,
    TerminalScheme,
    Overlay,
    Netns,
}

/// The list options of a configuration.
#[derive(PartialEq, Eq, Structural, Debug, Copy, Clone)]
pub enum ListOption {
    EphemeralPersistentDirs,
    ExtraBindmounts,
    ExtraBindmountsRo,
    RealmDepends,
}

/// Content of a Realm configuration file.
pub struct RealmConfig {
    pub use_shared_dir: Option<bool>,
    pub use_ephemeral_home: Option<bool>,
    pub ephemeral_persistent_dirs: Option<Vec<String>>,
    pub use_sound: Option<bool>,
    pub use_x11: Option<bool>,
    pub use_wayland: Option<bool>,
    pub use_kvm: Option<bool>,
    pub use_gpu: Option<bool>,
    pub use_gpu_card0: Option<bool>,
    pub use_network: Option<bool>,
    pub network_zone: Option<String>,
    pub reserved_ip: Option<u32>,
    pub system_realm: Option<bool>,
    pub autostart: Option<bool>,
    pub extra_bindmounts: Option<Vec<String>>,
    pub extra_bindmounts_ro: Option<Vec<String>>,
    pub realm_depends: Option<Vec<String>>,
    pub realmfs: Option<String>,
    pub realmfs_write: Option<bool>,
    pub terminal_scheme: Option<String>,
    pub overlay: Option<String>,
    pub netns: Option<String>,
    /// Configuration consulted for the options this one leaves unset.
    pub parent: Option<Box<RealmConfig>>,
    /// Modification time of the file the configuration was loaded from.
    pub loaded: Option<i64>,
    /// Path of the configuration file.
    pub path: String,
}

/// The value of a boolean option set in `c` itself.
pub open spec fn bool_field(c: RealmConfig, f: BoolOption) -> Option<bool> {
    match f {
        BoolOption::SharedDir => c.use_shared_dir,
        BoolOption::EphemeralHome => c.use_ephemeral_home,
        BoolOption::Sound => c.use_sound,
        BoolOption::X11 => c.use_x11,
        BoolOption::Wayland => c.use_wayland,
        BoolOption::Kvm => c.use_kvm,
        BoolOption::Gpu => c.use_gpu,
        BoolOption::GpuCard0 => c.use_gpu_card0,
        BoolOption::Network => c.use_network,
        BoolOption::SystemRealm => c.system_realm,
        BoolOption::Autostart => c.autostart,
        BoolOption::RealmfsWrite => c.realmfs_write,
    }
}

/// The value of a string option set in `c` itself.
pub open spec fn str_field(c: RealmConfig, f: StrOption) -> Option<Seq<char>> {
    let o = match f {
        StrOption::NetworkZone => c.network_zone,
        StrOption::Realmfs => c.realmfs,
        StrOption::TerminalScheme => c.terminal_scheme,
        StrOption::Overlay => c.overlay,
        StrOption::Netns => c.netns,
    };
    match o {
        Some(s) => Some(s@),
        None => None,
    }
}

/// The value of a list option set in `c` itself.
pub open spec fn list_field(c: RealmConfig, f: ListOption) -> Option<Seq<Seq<char>>> {
    let o = match f {
        ListOption::EphemeralPersistentDirs => c.ephemeral_persistent_dirs,
        ListOption::ExtraBindmounts => c.extra_bindmounts,
        ListOption::ExtraBindmountsRo => c.extra_bindmounts_ro,
        ListOption::RealmDepends => c.realm_depends,
    };
    match o {
        Some(v) => Some(v.deep_view()),
        None => None,
    }
}

/// A boolean option: the value set in `c`, else the one its parent chain
/// gives, else `false`.
pub open spec fn resolve_bool(c: RealmConfig, f: BoolOption) -> bool
    decreases c,
{
    match bool_field(c, f) {
        Some(v) => v,
        None => match c.parent {
            Some(p) => resolve_bool(*p, f),
            None => false,
        },
    }
}

/// A string option: the value set in `c`, else the one its parent chain gives.
pub open spec fn resolve_str(c: RealmConfig, f: StrOption) -> Option<Seq<char>>
    decreases c,
{
    match str_field(c, f) {
        Some(v) => Some(v),
        None => match c.parent {
            Some(p) => resolve_str(*p, f),
            None => None,
        },
    }
}

/// A list option: the value set in `c`, else the one its parent chain
/// gives, else the empty list.
pub open spec fn resolve_list(c: RealmConfig, f: ListOption) -> Seq<Seq<char>>
    decreases c,
{
    match list_field(c, f) {
        Some(v) => v,
        None => match c.parent {
            Some(p) => resolve_list(*p, f),
            None => seq![],
        },
    }
}

/// The reserved address octet: set in `c`, else given by its parent chain.
pub open spec fn resolve_reserved_ip(c: RealmConfig) -> Option<u8>
    decreases c,
{
    match c.reserved_ip {
        Some(n) => Some((n % 256) as u8),
        None => match c.parent {
            Some(p) => resolve_reserved_ip(*p),
            None => None,
        },
    }
}

/// The configuration with no option set.
pub open spec fn is_empty_config(c: RealmConfig) -> bool {
    &&& c.use_shared_dir is None
    &&& c.use_ephemeral_home is None
    &&& c.ephemeral_persistent_dirs is None
    &&& c.use_sound is None
    &&& c.use_x11 is None
    &&& c.use_wayland is None
    &&& c.use_kvm is None
    &&& c.use_gpu is None
    &&& c.use_gpu_card0 is None
    &&& c.use_network is None
    &&& c.network_zone is None
    &&& c.reserved_ip is None
    &&& c.system_realm is None
    &&& c.autostart is None
    &&& c.extra_bindmounts is None
    &&& c.extra_bindmounts_ro is None
    &&& c.realm_depends is None
    &&& c.realmfs is None
    &&& c.realmfs_write is None
    &&& c.terminal_scheme is None
    &&& c.overlay is None
    &&& c.netns is None
    &&& c.parent is None
}

fn clone_opt_string(o: &Option<String>) -> (r: Option<String>)
    ensures
        match (r, *o) {
            (Some(a), Some(b)) => a@ == b@,
            (None, None) => true,
            _ => false,
        },
{
    match o {
        Some(s) => Some(s.clone()),
        None => None,
    }
}

/// A copy of a list of strings.
pub fn clone_strings(v: &Vec<String>) -> (r: Vec<String>)
    ensures
        r.deep_view() == v.deep_view(),
{
    let mut r: Vec<String> = Vec::new();
    let mut i: usize = 0;
    while i < v.len()
        invariant
            i <= v.len(),
            r@.len() == i,
            forall|j: int| 0 <= j < i ==> (#[trigger] r@[j])@ == v@[j]@,
        decreases v.len() - i,
    {
        let c = v[i].clone();
        r.push(c);
        i += 1;
    }
    assert(r.deep_view() =~= v.deep_view());
    r
}

fn clone_opt_strings(o: &Option<Vec<String>>) -> (r: Option<Vec<String>>)
    ensures
        match (r, *o) {
            (Some(a), Some(b)) => a.deep_view() == b.deep_view(),
            (None, None) => true,
            _ => false,
        },
{
    match o {
        Some(v) => Some(clone_strings(v)),
        None => None,
    }
}

impl RealmConfig {
    /// Return an 'unloaded' realm config instance for the realm `realm_name`:
    /// no option set, stored at `/realms/realm-$name/config`.
    pub fn unloaded_realm_config(realm_name: &str) -> (c: Self)
        ensures
            is_empty_config(c),
            c.path@ == "/realms/realm-"@ + realm_name@ + "/config"@,
            c.loaded is None,
    {
        let mut path = to_owned_string("/realms/realm-");
        push_str(&mut path, realm_name);
        push_str(&mut path, "/config");
        let mut config = Self::empty();
        config.path = path;
        config
    }

    /// The global configuration: the parsed global configuration file
    /// (`None` when absent) over the defaults, or the defaults alone.
    pub fn load_global_config(parsed: Option<RealmConfig>) -> (c: Self)
        ensures
            match parsed {
                Some(g) => c.parent is Some && is_default_config(*c.parent.unwrap())
                    && same_options(c, g),
                None => is_default_config(c),
            },
    {
        match parsed {
            Some(mut global) => {
                global.parent = Some(Box::new(Self::default()));
                global
            },
            None => Self::default(),
        }
    }

    /// `true` unless the configuration was loaded from a file whose
    /// modification time is `mtime`.
    pub fn is_stale(&self, mtime: i64) -> (r: bool)
        ensures
            r == (self.loaded != Some(mtime)),
    {
        match self.loaded {
            Some(t) => t != mtime,
            None => true,
        }
    }

    /// Replaces this configuration by `loaded` (the parsed configuration
    /// file, `None` when the file does not exist) inheriting from `global`,
    /// keeping the path and recording `mtime`.
    pub fn reload(&mut self, loaded: Option<RealmConfig>, mtime: i64, global: RealmConfig)
        ensures
            final(self).path@ == old(self).path@,
            final(self).loaded == Some(mtime),
            final(self).parent == Some(Box::new(global)),
            match loaded {
                Some(l) => same_options(*final(self), l),
                None => no_options_set(*final(self)),
            },
    {
        let path = self.path.clone();
        let mut c = match loaded {
            Some(l) => l,
            None => Self::empty(),
        };
        c.path = path;
        c.loaded = Some(mtime);
        c.parent = Some(Box::new(global));
        *self = c;
    }

    /// The built-in defaults.
    pub fn default() -> (c: Self)
        ensures
            is_default_config(c),
            c.loaded is None,
            c.path@ == Seq::<char>::empty(),
    {
        let mut dirs: Vec<String> = Vec::new();
        dirs.push(to_owned_string("Documents"));
        assert(dirs.deep_view() =~= seq!["Documents"@]);
        RealmConfig {
            use_shared_dir: Some(true),
            use_ephemeral_home: Some(false),
            use_sound: Some(true),
            use_x11: Some(true),
            use_wayland: Some(true),
            use_kvm: Some(false),
            use_gpu: Some(false),
            use_gpu_card0: Some(false),
            use_network: Some(true),
            ephemeral_persistent_dirs: Some(dirs),
            network_zone: Some(to_owned_string("clear")),
            reserved_ip: None,
            system_realm: Some(false),
            autostart: Some(false),
            extra_bindmounts: None,
            extra_bindmounts_ro: None,
            realm_depends: None,
            realmfs: Some(to_owned_string("base")),
            realmfs_write: Some(false),
            overlay: Some(to_owned_string("storage")),
            terminal_scheme: None,
            netns: None,
            parent: None,
            loaded: None,
            path: String::new(),
        }
    }

    /// The configuration with no option set.
    pub fn empty() -> (c: Self)
        ensures
            is_empty_config(c),
            c.loaded is None,
            c.path@ == Seq::<char>::empty(),
    {
        RealmConfig {
            use_shared_dir: None,
            use_ephemeral_home: None,
            use_sound: None,
            use_x11: None,
            use_wayland: None,
            use_kvm: None,
            use_gpu: None,
            use_gpu_card0: None,
            use_network: None,
            network_zone: None,
            reserved_ip: None,
            system_realm: None,
            autostart: None,
            extra_bindmounts: None,
            extra_bindmounts_ro: None,
            realm_depends: None,
            ephemeral_persistent_dirs: None,
            realmfs: None,
            realmfs_write: None,
            overlay: None,
            terminal_scheme: None,
            netns: None,
            parent: None,
            loaded: None,
            path: String::new(),
        }
    }

    /// The path of the configuration file.
    pub fn path(&self) -> (r: &str)
        ensures
            r@ == self.path@,
    {
        self.path.as_str()
    }

    /// If `true` device /dev/kvm will be added to realm.
    pub fn kvm(&self) -> (r: bool)
        ensures
            r == resolve_bool(*self, BoolOption::Kvm),
    {
        self.bool_value(BoolOption::Kvm)
    }

    /// If `true` render node device /dev/dri/renderD128 will be added to realm.
    pub fn gpu(&self) -> (r: bool)
        ensures
            r == resolve_bool(*self, BoolOption::Gpu),
    {
        self.bool_value(BoolOption::Gpu)
    }

    /// If `true` and `self.gpu()` is also true, privileged device /dev/dri/card0
    /// will be added to realm.
    pub fn gpu_card0(&self) -> (r: bool)
        ensures
            r == resolve_bool(*self, BoolOption::GpuCard0),
    {
        self.bool_value(BoolOption::GpuCard0)
    }

    /// If `true` the /Shared directory will be mounted in home directory of realm.
    pub fn shared_dir(&self) -> (r: bool)
        ensures
            r == resolve_bool(*self, BoolOption::SharedDir),
    {
        self.bool_value(BoolOption::SharedDir)
    }

    /// If `true` the home directory of this realm will be set up in ephemeral mode.
    pub fn ephemeral_home(&self) -> (r: bool)
        ensures
            r == resolve_bool(*self, BoolOption::EphemeralHome),
    {
        self.bool_value(BoolOption::EphemeralHome)
    }

    /// A list of subdirectories of /realms/realm-${name}/home to bind mount into
    /// realm home directory when ephemeral-home is enabled.
    pub fn ephemeral_persistent_dirs(&self) -> (r: Vec<String>)
        ensures
            r.deep_view() == resolve_list(*self, ListOption::EphemeralPersistentDirs),
    {
        self.str_vec_value(ListOption::EphemeralPersistentDirs)
    }

    /// If `true` allows use of sound inside realm.
    pub fn sound(&self) -> (r: bool)
        ensures
            r == resolve_bool(*self, BoolOption::Sound),
    {
        self.bool_value(BoolOption::Sound)
    }

    /// If `true` access to the X11 server will be added to realm.
    pub fn x11(&self) -> (r: bool)
        ensures
            r == resolve_bool(*self, BoolOption::X11),
    {
        self.bool_value(BoolOption::X11)
    }

    /// If `true` access to Wayland display will be permitted in realm.
    pub fn wayland(&self) -> (r: bool)
        ensures
            r == resolve_bool(*self, BoolOption::Wayland),
    {
        self.bool_value(BoolOption::Wayland)
    }

    /// If `true` the realm will have access to the network through the zone
    /// specified by `self.network_zone()`.
    pub fn network(&self) -> (r: bool)
        ensures
            r == resolve_bool(*self, BoolOption::Network),
    {
        self.bool_value(BoolOption::Network)
    }

    /// The name of the network zone this realm will use if `self.network()` is `true`.
    pub fn network_zone(&self) -> (r: &str)
        ensures
            r@ == match resolve_str(*self, StrOption::NetworkZone) {
                Some(z) => z,
                None => default_zone(),
            },
    {
        match self.str_value(StrOption::NetworkZone) {
            Some(z) => z,
            None => "clear",
        }
    }

    /// If configured, the last octet of this realm's fixed address on the zone subnet.
    pub fn reserved_ip(&self) -> (r: Option<u8>)
        ensures
            r == resolve_reserved_ip(*self),
        decreases self,
    {
        match self.reserved_ip {
            Some(n) => {
                assert((n as u8) == n % 256) by (bit_vector);
                Some(n as u8)
            },
            None => match &self.parent {
                Some(parent) => parent.reserved_ip(),
                None => None,
            },
        }
    }

    /// If `true` this realm is a system utility realm.
    pub fn system_realm(&self) -> (r: bool)
        ensures
            r == resolve_bool(*self, BoolOption::SystemRealm),
    {
        self.bool_value(BoolOption::SystemRealm)
    }

    /// If `true` this realm will be automatically started at boot.
    pub fn autostart(&self) -> (r: bool)
        ensures
            r == resolve_bool(*self, BoolOption::Autostart),
    {
        self.bool_value(BoolOption::Autostart)
    }

    /// Additional directories to read-write bind mount into realm.
    pub fn extra_bindmounts(&self) -> (r: Vec<String>)
        ensures
            r.deep_view() == resolve_list(*self, ListOption::ExtraBindmounts),
    {
        self.str_vec_value(ListOption::ExtraBindmounts)
    }

    /// Additional directories to read-only bind mount into realm.
    pub fn extra_bindmounts_ro(&self) -> (r: Vec<String>)
        ensures
            r.deep_view() == resolve_list(*self, ListOption::ExtraBindmountsRo),
    {
        self.str_vec_value(ListOption::ExtraBindmountsRo)
    }

    /// Names of realms this realm depends on.
    pub fn realm_depends(&self) -> (r: Vec<String>)
        ensures
            r.deep_view() == resolve_list(*self, ListOption::RealmDepends),
    {
        self.str_vec_value(ListOption::RealmDepends)
    }

    /// The name of a RealmFS to use as the root filesystem for this realm.
    pub fn realmfs(&self) -> (r: &str)
        ensures
            r@ == match resolve_str(*self, StrOption::Realmfs) {
                Some(z) => z,
                None => default_realmfs(),
            },
    {
        match self.str_value(StrOption::Realmfs) {
            Some(z) => z,
            None => "base",
        }
    }

    pub fn realmfs_write(&self) -> (r: bool)
        ensures
            r == resolve_bool(*self, BoolOption::RealmfsWrite),
    {
        self.bool_value(BoolOption::RealmfsWrite)
    }

    /// Name of a terminal color scheme to use in this realm.
    pub fn terminal_scheme(&self) -> (r: Option<&str>)
        ensures
            match r {
                Some(s) => resolve_str(*self, StrOption::TerminalScheme) == Some(s@),
                None => resolve_str(*self, StrOption::TerminalScheme) is None,
            },
    {
        self.str_value(StrOption::TerminalScheme)
    }

    /// The type of overlay on root filesystem to set up for this realm.
    pub fn overlay(&self) -> (r: OverlayType)
        ensures
            r == match resolve_str(*self, StrOption::Overlay) {
                Some(s) => spec_overlay_from_str(s),
                None => OverlayType::Disabled,
            },
    {
        match self.str_value(StrOption::Overlay) {
            Some(s) => OverlayType::from_str_value(s),
            None => OverlayType::Disabled,
        }
    }

    /// Set the overlay option according to `overlay`; every other field
    /// keeps its value.
    pub fn set_overlay(&mut self, overlay: OverlayType)
        ensures
            str_field(*final(self), StrOption::Overlay) == spec_overlay_name(overlay),
            final(self).parent == old(self).parent,
            *final(self) == (RealmConfig { overlay: final(self).overlay, ..*old(self) }),
    {
        self.overlay = match overlay.to_str_value() {
            Some(s) => Some(to_owned_string(s)),
            None => None,
        };
    }

    pub fn netns(&self) -> (r: Option<&str>)
        ensures
            match r {
                Some(s) => resolve_str(*self, StrOption::Netns) == Some(s@),
                None => resolve_str(*self, StrOption::Netns) is None,
            },
    {
        self.str_value(StrOption::Netns)
    }

    pub fn has_netns(&self) -> (r: bool)
        ensures
            r == resolve_str(*self, StrOption::Netns) is Some,
    {
        self.netns().is_some()
    }

    fn own_list(&self, f: ListOption) -> (r: Option<&Vec<String>>)
        ensures
            match r {
                Some(v) => list_field(*self, f) == Some(v.deep_view()),
                None => list_field(*self, f) is None,
            },
    {
        let o = match f {
            ListOption::EphemeralPersistentDirs => &self.ephemeral_persistent_dirs,
            ListOption::ExtraBindmounts => &self.extra_bindmounts,
            ListOption::ExtraBindmountsRo => &self.extra_bindmounts_ro,
            ListOption::RealmDepends => &self.realm_depends,
        };
        match o {
            Some(v) => Some(v),
            None => None,
        }
    }

    fn own_str(&self, f: StrOption) -> (r: Option<&str>)
        ensures
            match r {
                Some(v) => str_field(*self, f) == Some(v@),
                None => str_field(*self, f) is None,
            },
    {
        let o = match f {
            StrOption::NetworkZone => &self.network_zone,
            StrOption::Realmfs => &self.realmfs,
            StrOption::TerminalScheme => &self.terminal_scheme,
            StrOption::Overlay => &self.overlay,
            StrOption::Netns => &self.netns,
        };
        match o {
            Some(v) => Some(v.as_str()),
            None => None,
        }
    }

    fn own_bool(&self, f: BoolOption) -> (r: Option<bool>)
        ensures
            r == bool_field(*self, f),
    {
        match f {
            BoolOption::SharedDir => self.use_shared_dir,
            BoolOption::EphemeralHome => self.use_ephemeral_home,
            BoolOption::Sound => self.use_sound,
            BoolOption::X11 => self.use_x11,
            BoolOption::Wayland => self.use_wayland,
            BoolOption::Kvm => self.use_kvm,
            BoolOption::Gpu => self.use_gpu,
            BoolOption::GpuCard0 => self.use_gpu_card0,
            BoolOption::Network => self.use_network,
            BoolOption::SystemRealm => self.system_realm,
            BoolOption::Autostart => self.autostart,
            BoolOption::RealmfsWrite => self.realmfs_write,
        }
    }

    fn str_vec_value(&self, f: ListOption) -> (r: Vec<String>)
        ensures
            r.deep_view() == resolve_list(*self, f),
        decreases self,
    {
        match self.own_list(f) {
            Some(val) => clone_strings(val),
            None => match &self.parent {
                Some(parent) => parent.str_vec_value(f),
                None => Vec::new(),
            },
        }
    }

    fn str_value(&self, f: StrOption) -> (r: Option<&str>)
        ensures
            match r {
                Some(v) => resolve_str(*self, f) == Some(v@),
                None => resolve_str(*self, f) is None,
            },
        decreases self,
    {
        match self.own_str(f) {
            Some(val) => Some(val),
            None => match &self.parent {
                Some(parent) => parent.str_value(f),
                None => None,
            },
        }
    }

    fn bool_value(&self, f: BoolOption) -> (r: bool)
        ensures
            r == resolve_bool(*self, f),
        decreases self,
    {
        match self.own_bool(f) {
            Some(val) => val,
            None => match &self.parent {
                Some(parent) => parent.bool_value(f),
                None => false,
            },
        }
    }
}

/// The options of the built-in default configuration.
pub open spec fn is_default_config(c: RealmConfig) -> bool {
    &&& c.use_shared_dir == Some(true)
    &&& c.use_ephemeral_home == Some(false)
    &&& c.use_sound == Some(true)
    &&& c.use_x11 == Some(true)
    &&& c.use_wayland == Some(true)
    &&& c.use_kvm == Some(false)
    &&& c.use_gpu == Some(false)
    &&& c.use_gpu_card0 == Some(false)
    &&& c.use_network == Some(true)
    &&& list_field(c, ListOption::EphemeralPersistentDirs) == Some(seq!["Documents"@])
    &&& str_field(c, StrOption::NetworkZone) == Some(default_zone())
    &&& c.reserved_ip is None
    &&& c.system_realm == Some(false)
    &&& c.autostart == Some(false)
    &&& c.extra_bindmounts is None
    &&& c.extra_bindmounts_ro is None
    &&& c.realm_depends is None
    &&& str_field(c, StrOption::Realmfs) == Some(default_realmfs())
    &&& c.realmfs_write == Some(false)
    &&& str_field(c, StrOption::Overlay) == Some("storage"@)
    &&& c.terminal_scheme is None
    &&& c.netns is None
    &&& c.parent is None
}

/// `c` sets no option (the parent is not considered).
pub open spec fn no_options_set(c: RealmConfig) -> bool {
    &&& forall|f: BoolOption| #[trigger] bool_field(c, f) is None
    &&& forall|f: StrOption| #[trigger] str_field(c, f) is None
    &&& forall|f: ListOption| #[trigger] list_field(c, f) is None
    &&& c.reserved_ip is None
}

/// `a` and `b` set the same options to the same values (the parent is not compared).
pub open spec fn same_options(a: RealmConfig, b: RealmConfig) -> bool {
    &&& forall|f: BoolOption| #[trigger] bool_field(a, f) == bool_field(b, f)
    &&& forall|f: StrOption| #[trigger] str_field(a, f) == str_field(b, f)
    &&& forall|f: ListOption| #[trigger] list_field(a, f) == list_field(b, f)
    &&& a.reserved_ip == b.reserved_ip
}

/// An overlay type survives the round trip through its configuration name.
pub proof fn law_overlay_name_roundtrip(o: OverlayType)
    requires
        o != OverlayType::Disabled,
    ensures
        spec_overlay_name(o) is Some,
        spec_overlay_from_str(spec_overlay_name(o).unwrap()) == o,
{
    reveal_strlit("tmpfs");
    reveal_strlit("storage");
    assert("storage"@.len() == 7);
    assert("tmpfs"@.len() == 5);
    assert("storage"@ != "tmpfs"@);
}

/// After `set_overlay(o)` with an overlay other than `Disabled`, `overlay()`
/// returns `o` whatever the parent configuration says.
pub proof fn law_set_overlay_then_overlay(c: RealmConfig, o: OverlayType)
    requires
        o != OverlayType::Disabled,
        str_field(c, StrOption::Overlay) == spec_overlay_name(o),
    ensures
        resolve_str(c, StrOption::Overlay) == spec_overlay_name(o),
        spec_overlay_from_str(resolve_str(c, StrOption::Overlay).unwrap()) == o,
{
    law_overlay_name_roundtrip(o);
}

/// An option set in a configuration is the one it reports; an option it
/// leaves unset is the one its parent reports.
pub proof fn law_option_inheritance(c: RealmConfig, f: BoolOption, g: StrOption, h: ListOption)
    requires
        c.parent is Some,
    ensures
        bool_field(c, f) is Some ==> resolve_bool(c, f) == bool_field(c, f).unwrap(),
        bool_field(c, f) is None ==> resolve_bool(c, f) == resolve_bool(*c.parent.unwrap(), f),
        str_field(c, g) is Some ==> resolve_str(c, g) == str_field(c, g),
        str_field(c, g) is None ==> resolve_str(c, g) == resolve_str(*c.parent.unwrap(), g),
        list_field(c, h) is Some ==> resolve_list(c, h) == list_field(c, h).unwrap(),
        list_field(c, h) is None ==> resolve_list(c, h) == resolve_list(*c.parent.unwrap(), h),
{
}

/// Law: each option a configuration sets itself reports the value of that
/// option's own field: `use-x11` for X11, `use-wayland` for Wayland, and so
/// on for every option.
pub proof fn law_options_read_own_fields(c: RealmConfig)
    ensures
        c.use_shared_dir matches Some(b) ==> resolve_bool(c, BoolOption::SharedDir) == b,
        c.use_ephemeral_home matches Some(b) ==> resolve_bool(c, BoolOption::EphemeralHome) == b,
        c.use_sound matches Some(b) ==> resolve_bool(c, BoolOption::Sound) == b,
        c.use_x11 matches Some(b) ==> resolve_bool(c, BoolOption::X11) == b,
        c.use_wayland matches Some(b) ==> resolve_bool(c, BoolOption::Wayland) == b,
        c.use_kvm matches Some(b) ==> resolve_bool(c, BoolOption::Kvm) == b,
        c.use_gpu matches Some(b) ==> resolve_bool(c, BoolOption::Gpu) == b,
        c.use_gpu_card0 matches Some(b) ==> resolve_bool(c, BoolOption::GpuCard0) == b,
        c.use_network matches Some(b) ==> resolve_bool(c, BoolOption::Network) == b,
        c.system_realm matches Some(b) ==> resolve_bool(c, BoolOption::SystemRealm) == b,
        c.autostart matches Some(b) ==> resolve_bool(c, BoolOption::Autostart) == b,
        c.realmfs_write matches Some(b) ==> resolve_bool(c, BoolOption::RealmfsWrite) == b,
        c.network_zone matches Some(s) ==> resolve_str(c, StrOption::NetworkZone) == Some(s@),
        c.realmfs matches Some(s) ==> resolve_str(c, StrOption::Realmfs) == Some(s@),
        c.terminal_scheme matches Some(s) ==> resolve_str(c, StrOption::TerminalScheme) == Some(s@),
        c.overlay matches Some(s) ==> resolve_str(c, StrOption::Overlay) == Some(s@),
        c.netns matches Some(s) ==> resolve_str(c, StrOption::Netns) == Some(s@),
        c.ephemeral_persistent_dirs matches Some(v) ==> resolve_list(c, ListOption::EphemeralPersistentDirs)
            == v.deep_view(),
        c.extra_bindmounts matches Some(v) ==> resolve_list(c, ListOption::ExtraBindmounts) == v.deep_view(),
        c.extra_bindmounts_ro matches Some(v) ==> resolve_list(c, ListOption::ExtraBindmountsRo)
            == v.deep_view(),
        c.realm_depends matches Some(v) ==> resolve_list(c, ListOption::RealmDepends) == v.deep_view(),
{
}

/// The defaults enable the shared directory, sound, X11, Wayland and the
/// network, disable the rest, and name the "clear" zone, the "base" RealmFS
/// and a storage overlay.
pub proof fn law_defaults(c: RealmConfig)
    requires
        is_default_config(c),
    ensures
        resolve_bool(c, BoolOption::SharedDir),
        resolve_bool(c, BoolOption::Sound),
        resolve_bool(c, BoolOption::X11),
        resolve_bool(c, BoolOption::Wayland),
        resolve_bool(c, BoolOption::Network),
        !resolve_bool(c, BoolOption::EphemeralHome),
        !resolve_bool(c, BoolOption::Kvm),
        !resolve_bool(c, BoolOption::Gpu),
        !resolve_bool(c, BoolOption::GpuCard0),
        !resolve_bool(c, BoolOption::SystemRealm),
        !resolve_bool(c, BoolOption::Autostart),
        !resolve_bool(c, BoolOption::RealmfsWrite),
        resolve_str(c, StrOption::NetworkZone) == Some(default_zone()),
        resolve_str(c, StrOption::Realmfs) == Some(default_realmfs()),
        spec_overlay_from_str(resolve_str(c, StrOption::Overlay).unwrap()) == OverlayType::Storage,
        resolve_reserved_ip(c) is None,
{
    reveal_strlit("tmpfs");
    reveal_strlit("storage");
    assert("storage"@.len() == 7);
    assert("tmpfs"@.len() == 5);
    assert("storage"@ != "tmpfs"@);
}

} // verus!
