//! The systemd configuration that launches a realm: the nspawn file and
//! the service unit, generated from the realm's configuration.
use vstd::prelude::*;

use crate::error::Error;
use crate::path::{join, spec_join};
use crate::realm::config::{
    bool_field, list_field,
    default_zone, resolve_bool, resolve_list, resolve_reserved_ip, resolve_str, BoolOption,
    ListOption, RealmConfig, StrOption,
};
use crate::realm::network::{ipv4_text, spec_config_allocate, string_result_view, NetworkConfig};
use crate::text::{push_str, replace_all, spec_replace, to_owned_string};

verus! {

/// Directory of the nspawn files of running realms.
pub const SYSTEMD_NSPAWN_PATH: &'static str = "/run/systemd/nspawn";

/// Directory of the service units of running realms.
pub const SYSTEMD_UNIT_PATH: &'static str = "/run/systemd/system";

/// The nspawn file template.
pub const NSPAWN_FILE_TEMPLATE: &'static str = r###"
[Exec]
Boot=true
$NETWORK_CONFIG

[Files]
BindReadOnly=/opt/share
BindReadOnly=/storage/citadel-state/resolv.conf:/etc/resolv.conf

$EXTRA_BIND_MOUNTS

$EXTRA_FILE_OPTIONS

"###;

/// The service unit template.
pub const REALM_SERVICE_TEMPLATE: &'static str = r###"
[Unit]
Description=Application Image $REALM_NAME instance

[Service]
Environment=SYSTEMD_NSPAWN_SHARE_NS_IPC=1
ExecStart=/usr/bin/systemd-nspawn --quiet --notify-ready=yes --keep-unit $NETNS_ARG --machine=$REALM_NAME --link-journal=auto --directory=$ROOTFS

KillMode=mixed
Type=notify
RestartForceExitStatus=133
SuccessExitStatus=133
"###;

/// `realm-<name>.service`.
pub open spec fn spec_service_name(name: Seq<char>) -> Seq<char> {
    "realm-"@ + name + ".service"@
}

/// The name of the service unit of a realm.
pub fn realm_service_name(name: &str) -> (r: String)
    ensures
        r@ == spec_service_name(name@),
{
    let mut s = to_owned_string("realm-");
    push_str(&mut s, name);
    push_str(&mut s, ".service");
    s
}

/// The path of the service unit of a realm.
pub fn realm_service_path(name: &str) -> (r: String)
    ensures
        r@ == spec_join(SYSTEMD_UNIT_PATH@, spec_service_name(name@)),
{
    let n = realm_service_name(name);
    join(SYSTEMD_UNIT_PATH, n.as_str())
}

/// The path of the nspawn file of a realm.
pub fn realm_nspawn_path(name: &str) -> (r: String)
    ensures
        r@ == spec_join(SYSTEMD_NSPAWN_PATH@, name@ + ".nspawn"@),
{
    let mut n = to_owned_string(name);
    push_str(&mut n, ".nspawn");
    join(SYSTEMD_NSPAWN_PATH, n.as_str())
}

/// `text` when `cond` holds, nothing otherwise.
pub open spec fn when(cond: bool, text: Seq<char>) -> Seq<char> {
    if cond {
        text
    } else {
        Seq::empty()
    }
}

/// A bind mount item can be written to the file: it holds no line end.
pub open spec fn is_valid_bind_item(item: Seq<char>) -> bool {
    !item.contains('\n')
}

/// A line `<prefix><item>` for each valid item, in order.
pub open spec fn bind_lines(prefix: Seq<char>, items: Seq<Seq<char>>) -> Seq<char>
    decreases items.len(),
{
    if items.len() == 0 {
        Seq::empty()
    } else {
        bind_lines(prefix, items.drop_last()) + when(
            is_valid_bind_item(items.last()),
            prefix + items.last() + "\n"@,
        )
    }
}

/// The bind mount lines of the nspawn file of a realm whose home
/// directory is `home`; `shared_exists` tells whether `/realms/Shared` exists.
pub open spec fn spec_extra_bind_mounts(c: RealmConfig, home: Seq<char>, shared_exists: bool) -> Seq<char> {
    home_line(c, home) + when(
        resolve_bool(c, BoolOption::SharedDir) && shared_exists,
        "Bind=/realms/Shared:/home/user/Shared\n"@,
    ) + when(resolve_bool(c, BoolOption::Kvm), "Bind=/dev/kvm\n"@) + when(
        resolve_bool(c, BoolOption::Gpu),
        "Bind=/dev/dri/renderD128\n"@ + when(
            resolve_bool(c, BoolOption::GpuCard0),
            "Bind=/dev/dri/card0\n"@,
        ),
    ) + when(
        resolve_bool(c, BoolOption::Sound),
        "Bind=/dev/snd\n"@ + "Bind=/dev/shm\n"@ + "BindReadOnly=/run/user/1000/pulse:/run/user/host/pulse\n"@,
    ) + when(resolve_bool(c, BoolOption::X11), "BindReadOnly=/tmp/.X11-unix\n"@) + when(
        resolve_bool(c, BoolOption::Wayland),
        "BindReadOnly=/run/user/1000/wayland-0:/run/user/host/wayland-0\n"@,
    ) + bind_lines("Bind="@, resolve_list(c, ListOption::ExtraBindmounts)) + bind_lines(
        "BindReadOnly="@,
        resolve_list(c, ListOption::ExtraBindmountsRo),
    )
}

/// Appends `text` when `cond` holds.
fn push_when(s: &mut String, cond: bool, text: &str)
    ensures
        final(s)@ == old(s)@ + when(cond, text@),
{
    if cond {
        push_str(s, text);
    } else {
        assert(old(s)@ + Seq::<char>::empty() =~= old(s)@);
    }
}

/// Appends a line `<prefix><item>` for each valid item.
fn push_bind_lines(s: &mut String, prefix: &str, items: &Vec<String>)
    ensures
        final(s)@ == old(s)@ + bind_lines(prefix@, items.deep_view()),
{
    let ghost start = s@;
    let ghost all = items.deep_view();
    let mut i: usize = 0;
    assert(all.take(0) =~= Seq::<Seq<char>>::empty());
    assert(start + Seq::<char>::empty() =~= start);
    while i < items.len()
        invariant
            i <= items@.len(),
            all == items.deep_view(),
            all.len() == items@.len(),
            s@ == start + bind_lines(prefix@, all.take(i as int)),
        decreases items@.len() - i,
    {
        let item = items[i].as_str();
        assert(all[i as int] == item@);
        assert(all.take(i + 1).drop_last() =~= all.take(i as int));
        let valid = !crate::text::contains_char(item, '\n');
        let ghost before = s@;
        if valid {
            push_str(s, prefix);
            push_str(s, item);
            push_str(s, "\n");
            assert(s@ =~= before + (prefix@ + item@ + "\n"@));
        }
        assert(s@ =~= start + bind_lines(prefix@, all.take(i + 1)));
        i += 1;
    }
    assert(all.take(items@.len() as int) =~= all);
}

/// The line that mounts the home directory `home`.
pub open spec fn home_line(c: RealmConfig, home: Seq<char>) -> Seq<char> {
    if resolve_bool(c, BoolOption::EphemeralHome) {
        "TemporaryFileSystem=/home/user:mode=755,uid=1000,gid=1000\n"@
    } else {
        "Bind="@ + home + ":/home/user\n"@
    }
}

/// The bind mount lines of the nspawn file of a realm.
pub fn extra_bind_mounts(config: &RealmConfig, home: &str, shared_exists: bool) -> (r: String)
    ensures
        r@ == spec_extra_bind_mounts(*config, home@, shared_exists),
{
    let mut s = String::new();
    if config.ephemeral_home() {
        push_str(&mut s, "TemporaryFileSystem=/home/user:mode=755,uid=1000,gid=1000\n");
        assert(s@ =~= home_line(*config, home@));
    } else {
        push_str(&mut s, "Bind=");
        push_str(&mut s, home);
        push_str(&mut s, ":/home/user\n");
        assert(s@ =~= home_line(*config, home@));
    }
    let ghost g1 = s@;
    push_when(&mut s, config.shared_dir() && shared_exists, "Bind=/realms/Shared:/home/user/Shared\n");
    push_when(&mut s, config.kvm(), "Bind=/dev/kvm\n");
    let ghost g3 = s@;
    if config.gpu() {
        push_str(&mut s, "Bind=/dev/dri/renderD128\n");
        let ghost h = s@;
        push_when(&mut s, config.gpu_card0(), "Bind=/dev/dri/card0\n");
        assert(s@ =~= g3 + ("Bind=/dev/dri/renderD128\n"@ + when(resolve_bool(*config, BoolOption::GpuCard0), "Bind=/dev/dri/card0\n"@)));
    } else {
        assert(s@ =~= g3 + Seq::<char>::empty());
    }
    let ghost g4 = s@;
    if config.sound() {
        push_str(&mut s, "Bind=/dev/snd\n");
        push_str(&mut s, "Bind=/dev/shm\n");
        push_str(&mut s, "BindReadOnly=/run/user/1000/pulse:/run/user/host/pulse\n");
        assert(s@ =~= g4 + ("Bind=/dev/snd\n"@ + "Bind=/dev/shm\n"@
            + "BindReadOnly=/run/user/1000/pulse:/run/user/host/pulse\n"@));
    } else {
        assert(s@ =~= g4 + Seq::<char>::empty());
    }
    push_when(&mut s, config.x11(), "BindReadOnly=/tmp/.X11-unix\n");
    push_when(&mut s, config.wayland(), "BindReadOnly=/run/user/1000/wayland-0:/run/user/host/wayland-0\n");
    let extra = config.extra_bindmounts();
    push_bind_lines(&mut s, "Bind=", &extra);
    let extra_ro = config.extra_bindmounts_ro();
    push_bind_lines(&mut s, "BindReadOnly=", &extra_ro);
    s
}

/// The file option lines of the nspawn file: a read-only rootfs with a
/// writable `/var` overlay, or nothing.
pub open spec fn spec_extra_file_options(readonly: bool) -> Seq<char> {
    when(readonly, "ReadOnly=true\n"@ + "Overlay=+/var::/var\n"@)
}

/// The file option lines of the nspawn file.
pub fn extra_file_options(readonly: bool) -> (r: String)
    ensures
        r@ == spec_extra_file_options(readonly),
{
    let mut s = String::new();
    if readonly {
        push_str(&mut s, "ReadOnly=true\n");
        push_str(&mut s, "Overlay=+/var::/var\n");
        assert(s@ =~= "ReadOnly=true\n"@ + "Overlay=+/var::/var\n"@);
    }
    s
}

/// The network lines of the nspawn file of a realm with a network
/// address and gateway.
pub open spec fn network_text(addr: Seq<char>, gw: Seq<char>) -> Seq<char> {
    "Environment=IFCONFIG_IP="@ + addr + "\n"@ + "Environment=IFCONFIG_GW="@ + gw + "\n"@ + "[Network]\n"@
        + "Zone=clear\n"@
}

/// The network lines of the nspawn file of a realm without network.
pub open spec fn private_network_text() -> Seq<char> {
    "[Network]\n"@ + "Private=true\n"@
}

/// The network zone of a configuration.
pub open spec fn spec_zone(c: RealmConfig) -> Seq<char> {
    match resolve_str(c, StrOption::NetworkZone) {
        Some(z) => z,
        None => default_zone(),
    }
}

/// What `network_config` writes and leaves in the network configuration.
pub open spec fn spec_network_config(c: RealmConfig, name: Seq<char>, m: Map<Seq<char>, crate::realm::network::BridgeView>) -> (Result<Seq<char>, Error>, Map<Seq<char>, crate::realm::network::BridgeView>) {
    if !resolve_bool(c, BoolOption::Network) {
        (Ok(private_network_text()), m)
    } else if resolve_str(c, StrOption::Netns) is Some {
        (Ok(Seq::empty()), m)
    } else {
        let zone = spec_zone(c);
        let (addr, m2) = spec_config_allocate(m, zone, name, resolve_reserved_ip(c));
        match addr {
            Err(e) => (Err(e), m2),
            Ok(a) => if m2.contains_key(zone) {
                (Ok(network_text(a, ipv4_text((m2[zone].network + 1) as u32))), m2)
            } else {
                (Err(Error::NoSuchBridge), m2)
            },
        }
    }
}

/// The network lines of the nspawn file of realm `name`: an address is
/// allocated on the realm's network zone (its reserved address, if it has
/// one), unless the realm has no network or uses its own network namespace.
pub fn network_config(config: &RealmConfig, name: &str, netconf: &mut NetworkConfig) -> (r: Result<String, Error>)
    ensures
        string_result_view(r) == spec_network_config(*config, name@, old(netconf)@).0,
        final(netconf)@ == spec_network_config(*config, name@, old(netconf)@).1,
{
    let mut s = String::new();
    if config.network() {
        if config.has_netns() {
            return Ok(s);
        }
        let zone = config.network_zone();
        let addr = match config.reserved_ip() {
            Some(octet) => netconf.allocate_reserved(zone, name, octet),
            None => netconf.allocate_address_for(zone, name),
        };
        let addr = match addr {
            Ok(a) => a,
            Err(e) => return Err(e),
        };
        let gw = match netconf.gateway(zone) {
            Ok(g) => g,
            Err(e) => return Err(e),
        };
        push_str(&mut s, "Environment=IFCONFIG_IP=");
        push_str(&mut s, addr.as_str());
        push_str(&mut s, "\n");
        push_str(&mut s, "Environment=IFCONFIG_GW=");
        push_str(&mut s, gw.as_str());
        push_str(&mut s, "\n");
        push_str(&mut s, "[Network]\n");
        push_str(&mut s, "Zone=clear\n");
        assert(s@ =~= network_text(addr@, gw@));
    } else {
        push_str(&mut s, "[Network]\n");
        push_str(&mut s, "Private=true\n");
        assert(s@ =~= private_network_text());
    }
    Ok(s)
}

/// The nspawn file: the template with its three parts filled in.
pub open spec fn spec_nspawn_file(bind_mounts: Seq<char>, file_options: Seq<char>, network: Seq<char>) -> Seq<char> {
    spec_replace(
        spec_replace(
            spec_replace(NSPAWN_FILE_TEMPLATE@, "$EXTRA_BIND_MOUNTS"@, bind_mounts),
            "$EXTRA_FILE_OPTIONS"@,
            file_options,
        ),
        "$NETWORK_CONFIG"@,
        network,
    )
}

/// The nspawn file of a realm.
pub fn nspawn_file(bind_mounts: &str, file_options: &str, network: &str) -> (r: String)
    ensures
        r@ == spec_nspawn_file(bind_mounts@, file_options@, network@),
{
    let a = replace_all(NSPAWN_FILE_TEMPLATE, "$EXTRA_BIND_MOUNTS", bind_mounts);
    let b = replace_all(a.as_str(), "$EXTRA_FILE_OPTIONS", file_options);
    replace_all(b.as_str(), "$NETWORK_CONFIG", network)
}

/// The network namespace argument of `systemd-nspawn`, if the realm has one.
pub open spec fn spec_netns_arg(netns: Option<Seq<char>>) -> Seq<char> {
    match netns {
        Some(n) => "--network-namespace-path=/run/netns/"@ + n,
        None => Seq::empty(),
    }
}

/// The service unit: the template with the realm name, rootfs and network
/// namespace argument filled in.
pub open spec fn spec_service_file(name: Seq<char>, rootfs: Seq<char>, netns: Option<Seq<char>>) -> Seq<char> {
    spec_replace(
        spec_replace(spec_replace(REALM_SERVICE_TEMPLATE@, "$REALM_NAME"@, name), "$ROOTFS"@, rootfs),
        "$NETNS_ARG"@,
        spec_netns_arg(netns),
    )
}

/// The service unit of a realm.
pub fn service_file(name: &str, rootfs: &str, netns: Option<&str>) -> (r: String)
    ensures
        r@ == spec_service_file(name@, rootfs@, match netns { Some(n) => Some(n@), None => None }),
{
    let netns_arg = match netns {
        Some(n) => {
            let mut s = to_owned_string("--network-namespace-path=/run/netns/");
            push_str(&mut s, n);
            s
        },
        None => String::new(),
    };
    let a = replace_all(REALM_SERVICE_TEMPLATE, "$REALM_NAME", name);
    let b = replace_all(a.as_str(), "$ROOTFS", rootfs);
    replace_all(b.as_str(), "$NETNS_ARG", netns_arg.as_str())
}

/// The arguments of `machinectl` that open a shell in a realm: quiet, the
/// realm's name in the environment (and the desktop startup id when there
/// is one, and the wayland GDK backend for a wayland-only realm), then
/// `shell user@realm`, the launcher if asked for, and `args`.
pub fn machinectl_shell_args(
    name: &str,
    startup_id: Option<&str>,
    wayland_only: bool,
    user: &str,
    launcher: bool,
    args: &Vec<String>,
) -> (r: Vec<String>)
    ensures
        r.deep_view() == seq!["--quiet"@, "--setenv=REALM_NAME="@ + name@] + match startup_id {
            Some(id) => seq!["--setenv=DESKTOP_STARTUP_ID="@ + id@],
            None => Seq::<Seq<char>>::empty(),
        } + (if wayland_only {
            seq!["--setenv=GDK_BACKEND=wayland"@]
        } else {
            Seq::<Seq<char>>::empty()
        }) + seq!["shell"@, user@ + "@"@ + name@] + (if launcher {
            seq!["/usr/libexec/launch"@]
        } else {
            Seq::<Seq<char>>::empty()
        }) + args.deep_view(),
{
    let mut v: Vec<String> = Vec::new();
    v.push(to_owned_string("--quiet"));
    let mut e = to_owned_string("--setenv=REALM_NAME=");
    push_str(&mut e, name);
    v.push(e);
    let ghost after_name = v.deep_view();
    match startup_id {
        Some(id) => {
            let mut d = to_owned_string("--setenv=DESKTOP_STARTUP_ID=");
            push_str(&mut d, id);
            v.push(d);
        },
        None => {},
    }
    let ghost after_id = v.deep_view();
    if wayland_only {
        v.push(to_owned_string("--setenv=GDK_BACKEND=wayland"));
    }
    let ghost after_wayland = v.deep_view();
    v.push(to_owned_string("shell"));
    let mut u = to_owned_string(user);
    push_str(&mut u, "@");
    push_str(&mut u, name);
    v.push(u);
    if launcher {
        v.push(to_owned_string("/usr/libexec/launch"));
    }
    let ghost before_args = v.deep_view();
    let mut i: usize = 0;
    while i < args.len()
        invariant
            i <= args@.len(),
            v.deep_view() == before_args + args.deep_view().take(i as int),
        decreases args@.len() - i,
    {
        let ghost b = v.deep_view();
        v.push(to_owned_string(args[i].as_str()));
        assert(args.deep_view()[i as int] == args@[i as int]@);
        assert(v.deep_view() =~= b.push(args@[i as int]@));
        assert(args.deep_view().take(i + 1) =~= args.deep_view().take(i as int).push(args@[i as int]@));
        i += 1;
    }
    proof {
        assert(args.deep_view().take(args@.len() as int) =~= args.deep_view());
    }
    assert(v.deep_view() =~= seq!["--quiet"@, "--setenv=REALM_NAME="@ + name@] + match startup_id {
            Some(id) => seq!["--setenv=DESKTOP_STARTUP_ID="@ + id@],
            None => Seq::<Seq<char>>::empty(),
        } + (if wayland_only {
            seq!["--setenv=GDK_BACKEND=wayland"@]
        } else {
            Seq::<Seq<char>>::empty()
        }) + seq!["shell"@, user@ + "@"@ + name@] + (if launcher {
            seq!["/usr/libexec/launch"@]
        } else {
            Seq::<Seq<char>>::empty()
        }) + args.deep_view());
    v
}

/// The unit names `systemctl is-active` is asked about: `realm-<name>` for
/// each realm.
pub fn realm_unit_names(names: &Vec<String>) -> (r: Vec<String>)
    ensures
        r.deep_view() == names.deep_view().map_values(|n: Seq<char>| "realm-"@ + n),
{
    let mut v: Vec<String> = Vec::new();
    let mut i: usize = 0;
    while i < names.len()
        invariant
            i <= names@.len(),
            v.deep_view() == names.deep_view().take(i as int).map_values(|n: Seq<char>| "realm-"@ + n),
        decreases names@.len() - i,
    {
        let mut s = to_owned_string("realm-");
        push_str(&mut s, names[i].as_str());
        let ghost b = v.deep_view();
        v.push(s);
        assert(names.deep_view()[i as int] == names@[i as int]@);
        assert(v.deep_view() =~= b.push("realm-"@ + names@[i as int]@));
        assert(names.deep_view().take(i + 1).map_values(|n: Seq<char>| "realm-"@ + n) =~= names.deep_view().take(
            i as int,
        ).map_values(|n: Seq<char>| "realm-"@ + n).push("realm-"@ + names@[i as int]@));
        i += 1;
    }
    assert(names.deep_view().take(names@.len() as int) =~= names.deep_view());
    v
}

/// The bind mount lines that come before the device lines of the gpu.
pub open spec fn bind_lines_before_gpu(c: RealmConfig, home: Seq<char>, shared_exists: bool) -> Seq<char> {
    home_line(c, home) + when(
        resolve_bool(c, BoolOption::SharedDir) && shared_exists,
        "Bind=/realms/Shared:/home/user/Shared\n"@,
    ) + when(resolve_bool(c, BoolOption::Kvm), "Bind=/dev/kvm\n"@)
}

/// The bind mount lines that come after the device lines of the gpu.
pub open spec fn bind_lines_after_gpu(c: RealmConfig) -> Seq<char> {
    when(
        resolve_bool(c, BoolOption::Sound),
        "Bind=/dev/snd\n"@ + "Bind=/dev/shm\n"@ + "BindReadOnly=/run/user/1000/pulse:/run/user/host/pulse\n"@,
    ) + when(resolve_bool(c, BoolOption::X11), "BindReadOnly=/tmp/.X11-unix\n"@) + when(
        resolve_bool(c, BoolOption::Wayland),
        "BindReadOnly=/run/user/1000/wayland-0:/run/user/host/wayland-0\n"@,
    ) + bind_lines("Bind="@, resolve_list(c, ListOption::ExtraBindmounts)) + bind_lines(
        "BindReadOnly="@,
        resolve_list(c, ListOption::ExtraBindmountsRo),
    )
}

proof fn lemma_assoc_tail(p: Seq<char>, g: Seq<char>, x1: Seq<char>, x2: Seq<char>, x3: Seq<char>, x4: Seq<char>, x5: Seq<char>)
    ensures
        p + g + (x1 + x2 + x3 + x4 + x5) == p + g + x1 + x2 + x3 + x4 + x5,
{
    assert(p + g + (x1 + x2 + x3 + x4 + x5) =~= p + g + x1 + x2 + x3 + x4 + x5);
}

proof fn lemma_bind_mounts_parts(c: RealmConfig, home: Seq<char>, shared_exists: bool)
    ensures
        spec_extra_bind_mounts(c, home, shared_exists) == bind_lines_before_gpu(c, home, shared_exists)
            + when(
            resolve_bool(c, BoolOption::Gpu),
            "Bind=/dev/dri/renderD128\n"@ + when(resolve_bool(c, BoolOption::GpuCard0), "Bind=/dev/dri/card0\n"@),
        ) + bind_lines_after_gpu(c),
{
    let p = bind_lines_before_gpu(c, home, shared_exists);
    let g = when(
        resolve_bool(c, BoolOption::Gpu),
        "Bind=/dev/dri/renderD128\n"@ + when(resolve_bool(c, BoolOption::GpuCard0), "Bind=/dev/dri/card0\n"@),
    );
    let x1 = when(
        resolve_bool(c, BoolOption::Sound),
        "Bind=/dev/snd\n"@ + "Bind=/dev/shm\n"@ + "BindReadOnly=/run/user/1000/pulse:/run/user/host/pulse\n"@,
    );
    let x2 = when(resolve_bool(c, BoolOption::X11), "BindReadOnly=/tmp/.X11-unix\n"@);
    let x3 = when(
        resolve_bool(c, BoolOption::Wayland),
        "BindReadOnly=/run/user/1000/wayland-0:/run/user/host/wayland-0\n"@,
    );
    let x4 = bind_lines("Bind="@, resolve_list(c, ListOption::ExtraBindmounts));
    let x5 = bind_lines("BindReadOnly="@, resolve_list(c, ListOption::ExtraBindmountsRo));
    lemma_assoc_tail(p, g, x1, x2, x3, x4, x5);
    assert(bind_lines_after_gpu(c) == x1 + x2 + x3 + x4 + x5);
}

proof fn lemma_card0_only_differs(c: RealmConfig, on: RealmConfig, off: RealmConfig, home: Seq<char>, shared_exists: bool)
    requires
        on == (RealmConfig { use_gpu_card0: Some(true), ..c }),
        off == (RealmConfig { use_gpu_card0: Some(false), ..c }),
    ensures
        bind_lines_before_gpu(on, home, shared_exists) == bind_lines_before_gpu(off, home, shared_exists),
        bind_lines_after_gpu(on) == bind_lines_after_gpu(off),
        resolve_bool(on, BoolOption::Gpu) == resolve_bool(c, BoolOption::Gpu),
        resolve_bool(off, BoolOption::Gpu) == resolve_bool(c, BoolOption::Gpu),
        resolve_bool(on, BoolOption::GpuCard0),
        !resolve_bool(off, BoolOption::GpuCard0),
{
    assert(resolve_bool(on, BoolOption::EphemeralHome) == resolve_bool(off, BoolOption::EphemeralHome));
    assert(resolve_bool(on, BoolOption::SharedDir) == resolve_bool(off, BoolOption::SharedDir));
    assert(resolve_bool(on, BoolOption::Kvm) == resolve_bool(off, BoolOption::Kvm));
    assert(resolve_bool(on, BoolOption::Sound) == resolve_bool(off, BoolOption::Sound));
    assert(resolve_bool(on, BoolOption::X11) == resolve_bool(off, BoolOption::X11));
    assert(resolve_bool(on, BoolOption::Wayland) == resolve_bool(off, BoolOption::Wayland));
    assert(resolve_list(on, ListOption::ExtraBindmounts) == resolve_list(off, ListOption::ExtraBindmounts));
    assert(resolve_list(on, ListOption::ExtraBindmountsRo) == resolve_list(off, ListOption::ExtraBindmountsRo));
}

proof fn lemma_insert_after(a: Seq<char>, r: Seq<char>, card: Seq<char>, b: Seq<char>)
    ensures
        ({
            let k = (a + r).len() as int;
            &&& (a + r + b).take(k) == a + r
            &&& (a + (r + card) + b) == (a + r + b).take(k) + card + (a + r + b).skip(k)
            &&& r.len() <= k <= (a + r + b).len()
            &&& (a + r + b).subrange(k - r.len(), k) == r
        }),
{
    let k = (a + r).len() as int;
    assert((a + r + b).take(k) =~= a + r);
    assert((a + r + b).skip(k) =~= b);
    assert((a + (r + card) + b) =~= (a + r) + card + b);
    assert((a + r + b).subrange(k - r.len(), k) =~= r);
}

/// Law: the privileged device `/dev/dri/card0` is bound only where both the
/// gpu and the gpu-card0 options are on. Of two configurations that differ
/// only in gpu-card0, the one with it on has, when gpu is on, exactly the
/// line `Bind=/dev/dri/card0` more, right after the `Bind=/dev/dri/renderD128`
/// line; when gpu is off the two have the same bind mounts.
pub proof fn law_gpu_card0_line(c: RealmConfig, home: Seq<char>, shared_exists: bool)
    ensures
        ({
            let on = RealmConfig { use_gpu_card0: Some(true), ..c };
            let off = RealmConfig { use_gpu_card0: Some(false), ..c };
            let t_on = spec_extra_bind_mounts(on, home, shared_exists);
            let t_off = spec_extra_bind_mounts(off, home, shared_exists);
            &&& resolve_bool(c, BoolOption::Gpu) ==> exists|k: int|
                25 <= k <= t_off.len() && t_off.subrange(k - 25, k) == "Bind=/dev/dri/renderD128\n"@
                    && t_on == t_off.take(k) + "Bind=/dev/dri/card0\n"@ + t_off.skip(k)
            &&& !resolve_bool(c, BoolOption::Gpu) ==> t_on == t_off
        }),
{
    let on = RealmConfig { use_gpu_card0: Some(true), ..c };
    let off = RealmConfig { use_gpu_card0: Some(false), ..c };
    lemma_card0_only_differs(c, on, off, home, shared_exists);
    lemma_bind_mounts_parts(on, home, shared_exists);
    lemma_bind_mounts_parts(off, home, shared_exists);
    let a = bind_lines_before_gpu(off, home, shared_exists);
    let b = bind_lines_after_gpu(off);
    let r = "Bind=/dev/dri/renderD128\n"@;
    let card = "Bind=/dev/dri/card0\n"@;
    let t_on = spec_extra_bind_mounts(on, home, shared_exists);
    let t_off = spec_extra_bind_mounts(off, home, shared_exists);
    if resolve_bool(c, BoolOption::Gpu) {
        reveal_strlit("Bind=/dev/dri/renderD128\n");
        assert(r.len() == 25);
        assert(when(false, card) =~= Seq::<char>::empty());
        assert(r + when(false, card) =~= r);
        assert(t_off == a + r + b);
        assert(t_on == a + (r + card) + b);
        lemma_insert_after(a, r, card, b);
        let k = (a + r).len() as int;
        assert(25 <= k <= t_off.len() && t_off.subrange(k - 25, k) == r && t_on == t_off.take(k) + card + t_off.skip(k));
    } else {
        assert(t_on == t_off);
    }
}

} // verus!
