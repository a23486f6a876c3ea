use libcitadel::error::Error;
use libcitadel::realm::config::{OverlayType, RealmConfig};
use libcitadel::realm::events::{machine_signal, rescan_events, ListenerState, MachineSignal, RealmEvent};
use libcitadel::realm::manager::{
    boot_realm, check_realmfs_deletable, find_node, plan_set_current, start_order, CurrentPlan, StartNode,
};
use libcitadel::realm::network::{ipv4_string, parse_ipv4, BridgeAllocator, NetworkConfig};
use libcitadel::realm::overlay::RealmOverlay;
use libcitadel::realm::realm::{
    base_path, base_path_file, dir_name, is_valid_realm_name, parse_leader_pid, proc_rootfs,
    readonly_rootfs, realmfs_forks, run_path, run_path_file, use_writable_mountpoint,
    RealmActiveState, RealmInfo, RealmState,
};
use libcitadel::realm::realms::{
    active, check_create, check_delete, choose_current, choose_default, current_changed,
    dir_to_realm_name, path_to_realm_name, rescan_names, sorted,
};
use libcitadel::realm::systemd::{
    extra_bind_mounts, extra_file_options, machinectl_shell_args, network_config, nspawn_file,
    realm_service_name, service_file, NSPAWN_FILE_TEMPLATE, REALM_SERVICE_TEMPLATE,
};

fn clear_bridge() -> BridgeAllocator {
    BridgeAllocator::default_bridge(&vec![]).unwrap()
}

#[test]
fn ipv4_text() {
    assert_eq!(parse_ipv4("172.17.0.1"), Some(0xac110001));
    assert_eq!(ipv4_string(0xac110001), "172.17.0.1");
    assert_eq!(ipv4_string(0), "0.0.0.0");
    assert_eq!(parse_ipv4("256.0.0.1"), None);
    assert_eq!(parse_ipv4("1.2.3"), None);
    assert_eq!(parse_ipv4("1.2.3.4.5"), None);
    assert_eq!(parse_ipv4("a.b.c.d"), None);
    for a in [0u32, 1, 0x7f000001, 0xffffffff, 0x0a000102] {
        assert_eq!(parse_ipv4(&ipv4_string(a)), Some(a));
    }
}

#[test]
fn bridge_allocation_sequence() {
    let mut b = clear_bridge();
    assert_eq!(b.bridge(), "clear");
    assert_eq!(b.mask_size(), 24);
    assert_eq!(b.gateway(), "172.17.0.1");
    assert_eq!(b.allocate_address_for("a").unwrap(), "172.17.0.2/24");
    assert_eq!(b.allocate_address_for("b").unwrap(), "172.17.0.3/24");
    // a second allocation for the same realm replaces the first
    assert_eq!(b.allocate_address_for("a").unwrap(), "172.17.0.4/24");
    assert_eq!(b.allocate_address_for("c").unwrap(), "172.17.0.2/24");
    assert!(b.free_allocation_for("b"));
    assert!(!b.free_allocation_for("b"));
    assert!(!b.free_allocation_for("nobody"));
    assert_eq!(b.allocate_address_for("d").unwrap(), "172.17.0.3/24");
}

#[test]
fn bridge_reserved_addresses() {
    let mut b = clear_bridge();
    assert_eq!(b.allocate_reserved("r", 199), Err(Error::NotReserved));
    assert_eq!(b.allocate_reserved("r", 200).unwrap(), "172.17.0.200/24");
    assert_eq!(b.allocate_reserved("s", 200), Err(Error::AddressInUse));
    assert_eq!(b.allocate_reserved("s", 254).unwrap(), "172.17.0.254/24");
}

#[test]
fn bridge_runs_out_of_addresses() {
    let mut b = clear_bridge();
    for i in 0..198 {
        let addr = b.allocate_address_for(&format!("realm{}", i)).unwrap();
        assert_eq!(addr, format!("172.17.0.{}/24", i + 2));
    }
    assert_eq!(b.allocate_address_for("one-more"), Err(Error::NoFreeAddress));
    assert!(b.free_allocation_for("realm10"));
    assert_eq!(b.allocate_address_for("one-more").unwrap(), "172.17.0.12/24");
}

#[test]
fn bridge_network_errors() {
    let none: Vec<String> = vec![];
    assert!(matches!(BridgeAllocator::for_bridge("x", "10.0.0.0/8", &none), Err(Error::BadNetwork)));
    assert!(matches!(BridgeAllocator::for_bridge("x", "10.0.0.0/25", &none), Err(Error::BadNetwork)));
    assert!(matches!(BridgeAllocator::for_bridge("x", "10.0.0.1/24", &none), Err(Error::BadNetwork)));
    assert!(matches!(BridgeAllocator::for_bridge("x", "10.0.0.0/abc", &none), Err(Error::BadNumber)));
    assert!(matches!(BridgeAllocator::for_bridge("x", "10.0.0/24", &none), Err(Error::BadAddress)));
    let b = BridgeAllocator::for_bridge("x", "10.1.0.0/16", &none).unwrap();
    assert_eq!(b.mask_size(), 16);
    assert_eq!(b.gateway(), "10.1.0.1");
    let b = BridgeAllocator::for_bridge("y", "10.1.2.0", &none).unwrap();
    assert_eq!(b.mask_size(), 24);
}

#[test]
fn bridge_state_file() {
    let state = vec!["a:172.17.0.5".to_string()];
    let mut b = BridgeAllocator::default_bridge(&state).unwrap();
    assert_eq!(b.allocate_address_for("b").unwrap(), "172.17.0.2/24");
    let mut lines = b.state_lines();
    lines.sort();
    assert_eq!(lines, vec!["a:172.17.0.5".to_string(), "b:172.17.0.2".to_string()]);
    // reading back what was written gives the same allocations
    let mut again = BridgeAllocator::default_bridge(&b.state_lines()).unwrap();
    let mut lines2 = again.state_lines();
    lines2.sort();
    assert_eq!(lines2, lines);
    assert_eq!(again.allocate_address_for("c").unwrap(), "172.17.0.3/24");
    assert!(matches!(BridgeAllocator::default_bridge(&vec!["junk".to_string()]), Err(Error::BadLine)));
    assert!(matches!(BridgeAllocator::default_bridge(&vec!["a:1.2.3".to_string()]), Err(Error::BadAddress)));
}

#[test]
fn network_config_bridges() {
    let mut n = NetworkConfig::new();
    assert_eq!(n.gateway("clear"), Err(Error::NoSuchBridge));
    n.add_bridge("clear", "172.17.0.0/24", &vec![]).unwrap();
    assert_eq!(n.gateway("clear").unwrap(), "172.17.0.1");
    assert_eq!(n.allocate_address_for("clear", "main").unwrap(), "172.17.0.2/24");
    assert_eq!(n.allocate_address_for("other", "main"), Err(Error::NoSuchBridge));
    assert_eq!(n.allocate_reserved("clear", "dns", 201).unwrap(), "172.17.0.201/24");
    assert_eq!(n.free_allocation_for("clear", "main"), Ok(true));
    assert_eq!(n.free_allocation_for("clear", "main"), Ok(false));
    assert_eq!(n.free_allocation_for("other", "main"), Err(Error::NoSuchBridge));
    assert!(matches!(n.add_bridge("bad", "1.2.3.4/30", &vec![]), Err(Error::BadNetwork)));
}

#[test]
fn realm_names_and_paths() {
    assert!(is_valid_realm_name("main"));
    assert!(is_valid_realm_name("a-1"));
    assert!(!is_valid_realm_name(""));
    assert!(!is_valid_realm_name("1abc"));
    assert!(!is_valid_realm_name("a_b"));
    assert!(!is_valid_realm_name(&"a".repeat(129)));
    assert!(is_valid_realm_name(&"a".repeat(128)));
    assert_eq!(dir_name("main"), "realm-main");
    assert_eq!(base_path("main"), "/realms/realm-main");
    assert_eq!(base_path_file("main", "home"), "/realms/realm-main/home");
    assert_eq!(run_path("main"), "/run/citadel/realms/realm-main");
    assert_eq!(run_path_file("main", "realm-name"), "/run/citadel/realms/realm-main/realm-name");
    assert_eq!(dir_to_realm_name("realm-main"), Some("main".to_string()));
    assert_eq!(dir_to_realm_name("realm-"), None);
    assert_eq!(dir_to_realm_name("main"), None);
    assert_eq!(path_to_realm_name("/realms/realm-main"), Some("main".to_string()));
    assert_eq!(path_to_realm_name("/run/citadel/realms/realm-x"), Some("x".to_string()));
    assert_eq!(path_to_realm_name("/realms/realm-main/home"), None);
    assert_eq!(path_to_realm_name("/tmp/realm-main"), None);
}

#[test]
fn realm_state_changes() {
    assert_eq!(RealmActiveState::from_sysctl_output("active"), RealmActiveState::Active);
    assert_eq!(RealmActiveState::from_sysctl_output("inactive"), RealmActiveState::Inactive);
    assert_eq!(RealmActiveState::from_sysctl_output("failed"), RealmActiveState::Unknown);
    let mut s = RealmState::new();
    assert_eq!(s.leader_pid(), None);
    s.set_active(true);
    s.set_leader_pid(42);
    assert_eq!(s.leader_pid(), Some(42));
    s.set_active(false);
    assert_eq!(s.leader_pid(), None);
    s.set_active(true);
    assert_eq!(s.leader_pid(), None);
}

#[test]
fn rootfs_mode() {
    assert!(readonly_rootfs(OverlayType::Disabled, true, true));
    assert!(readonly_rootfs(OverlayType::Disabled, false, false));
    assert!(!readonly_rootfs(OverlayType::Disabled, false, true));
    assert!(!readonly_rootfs(OverlayType::Storage, true, false));
    assert!(use_writable_mountpoint(Some("main"), false, "main"));
    assert!(!use_writable_mountpoint(Some("main"), true, "main"));
    assert!(!use_writable_mountpoint(Some("other"), false, "main"));
    assert!(!use_writable_mountpoint(None, false, "main"));
}

fn info(name: &str, system: bool, active_now: bool, ts: i64) -> RealmInfo {
    RealmInfo { name: name.to_string(), system, active: active_now, timestamp: ts }
}

#[test]
fn realm_listing_order() {
    let list = sorted(vec![
        info("sys", true, true, 9),
        info("b", false, false, 1),
        info("a", false, false, 1),
        info("run", false, true, 0),
        info("recent", false, false, 5),
    ]);
    let names: Vec<&str> = list.iter().map(|r| r.name.as_str()).collect();
    assert_eq!(names, vec!["run", "recent", "a", "b", "sys"]);
    assert_eq!(choose_default(&list), Some(0));
    assert_eq!(choose_current(&list), Some(0));
    let act = active(&list, true);
    assert_eq!(act.len(), 1);
    assert_eq!(act[0].name, "run");
    assert_eq!(active(&list, false).len(), 2);
    let only_sys = sorted(vec![info("sys", true, true, 0)]);
    assert_eq!(choose_default(&only_sys), None);
    let stopped = sorted(vec![info("x", false, false, 0)]);
    assert_eq!(choose_current(&stopped), None);
    assert_eq!(choose_default(&stopped), Some(0));
}

#[test]
fn realm_checks() {
    let existing = vec!["main".to_string()];
    assert_eq!(check_create("new", &existing), Ok(()));
    assert_eq!(check_create("main", &existing), Err(Error::RealmExists));
    assert_eq!(check_create("bad name", &existing), Err(Error::InvalidName));
    assert_eq!(check_delete(None), Err(Error::NoSuchRealm));
    assert_eq!(check_delete(Some(&info("a", false, true, 0))), Err(Error::RealmActive));
    assert_eq!(check_delete(Some(&info("a", false, false, 0))), Ok(()));
    assert!(current_changed(Some("a"), Some("b")));
    assert!(current_changed(None, Some("b")));
    assert!(!current_changed(Some("a"), Some("a")));
    assert!(!current_changed(None, None));
}

#[test]
fn realm_rescan() {
    let old = vec!["a".to_string(), "b".to_string()];
    let new = vec!["b".to_string(), "c".to_string(), "c".to_string()];
    let (added, removed) = rescan_names(&old, &new);
    assert_eq!(added, vec!["c".to_string()]);
    assert_eq!(removed, vec!["a".to_string()]);
    let events = rescan_events(added, removed);
    assert_eq!(events, vec![RealmEvent::New("c".to_string()), RealmEvent::Removed("a".to_string())]);
}

#[test]
fn realm_event_text() {
    assert_eq!(RealmEvent::Started("main".to_string()).to_string(), "RealmStarted(main)");
    assert_eq!(RealmEvent::Stopped("main".to_string()).to_string(), "RealmStopped(main)");
    assert_eq!(RealmEvent::New("main".to_string()).to_string(), "RealmNew(main)");
    assert_eq!(RealmEvent::Removed("main".to_string()).to_string(), "RealmRemoved(main)");
    assert_eq!(RealmEvent::Current(Some("main".to_string())).to_string(), "RealmCurrent(main)");
    assert_eq!(RealmEvent::Current(None).to_string(), "RealmCurrent(None)");
    assert_eq!(machine_signal("MachineNew"), Some(MachineSignal::MachineNew));
    assert_eq!(machine_signal("MachineRemoved"), Some(MachineSignal::MachineRemoved));
    assert_eq!(machine_signal("Other"), None);
}

fn node(name: &str, active_now: bool, deps: &[&str]) -> StartNode {
    StartNode { name: name.to_string(), active: active_now, depends: deps.iter().map(|s| s.to_string()).collect() }
}

#[test]
fn start_order_dependencies_first() {
    let nodes = vec![
        node("main", false, &["net", "vpn"]),
        node("net", false, &[]),
        node("vpn", false, &["net", "missing"]),
        node("other", false, &[]),
    ];
    assert_eq!(find_node(&nodes, "vpn"), Some(2));
    assert_eq!(find_node(&nodes, "missing"), None);
    assert_eq!(start_order(&nodes, 0), vec![1, 2, 0]);
    assert_eq!(start_order(&nodes, 3), vec![3]);
}

#[test]
fn start_order_skips_running_and_cycles() {
    let nodes = vec![
        node("a", false, &["b"]),
        node("b", false, &["a", "c"]),
        node("c", true, &[]),
    ];
    // c is running; the cycle back to a is not followed
    assert_eq!(start_order(&nodes, 0), vec![1, 0]);
    // a running target is still planned
    let nodes = vec![node("a", true, &["b"]), node("b", false, &[])];
    assert_eq!(start_order(&nodes, 0), vec![1, 0]);
}

#[test]
fn systemd_unit_texts() {
    assert_eq!(realm_service_name("main"), "realm-main.service");
    let unit = service_file("main", "/run/rootfs", None);
    assert_eq!(
        unit,
        REALM_SERVICE_TEMPLATE.replace("$REALM_NAME", "main").replace("$ROOTFS", "/run/rootfs").replace("$NETNS_ARG", "")
    );
    let unit = service_file("main", "/r", Some("ns1"));
    assert!(unit.contains("--network-namespace-path=/run/netns/ns1 --machine=main"));
    assert_eq!(extra_file_options(true), "ReadOnly=true\nOverlay=+/var::/var\n");
    assert_eq!(extra_file_options(false), "");
    let f = nspawn_file("B\n", "F\n", "N\n");
    assert_eq!(
        f,
        NSPAWN_FILE_TEMPLATE.replace("$EXTRA_BIND_MOUNTS", "B\n").replace("$EXTRA_FILE_OPTIONS", "F\n").replace("$NETWORK_CONFIG", "N\n")
    );
}

#[test]
fn systemd_bind_mounts() {
    let mut c = RealmConfig::empty();
    c.use_kvm = Some(true);
    c.extra_bindmounts = Some(vec!["/a:/b".to_string(), "bad\nitem".to_string()]);
    c.extra_bindmounts_ro = Some(vec!["/ro".to_string()]);
    c.parent = Some(Box::new(RealmConfig::default()));
    let s = extra_bind_mounts(&c, "/realms/realm-main/home", true);
    assert_eq!(
        s,
        "Bind=/realms/realm-main/home:/home/user\n\
         Bind=/realms/Shared:/home/user/Shared\n\
         Bind=/dev/kvm\n\
         Bind=/dev/snd\n\
         Bind=/dev/shm\n\
         BindReadOnly=/run/user/1000/pulse:/run/user/host/pulse\n\
         BindReadOnly=/tmp/.X11-unix\n\
         BindReadOnly=/run/user/1000/wayland-0:/run/user/host/wayland-0\n\
         Bind=/a:/b\n\
         BindReadOnly=/ro\n"
    );
    let mut e = RealmConfig::default();
    e.use_ephemeral_home = Some(true);
    e.use_sound = Some(false);
    e.use_x11 = Some(false);
    e.use_wayland = Some(false);
    let s = extra_bind_mounts(&e, "/h", false);
    assert_eq!(s, "TemporaryFileSystem=/home/user:mode=755,uid=1000,gid=1000\n");
}

#[test]
fn systemd_network_lines() {
    let mut n = NetworkConfig::new();
    n.add_bridge("clear", "172.17.0.0/24", &vec![]).unwrap();
    let c = RealmConfig::default();
    let s = network_config(&c, "main", &mut n).unwrap();
    assert_eq!(s, "Environment=IFCONFIG_IP=172.17.0.2/24\nEnvironment=IFCONFIG_GW=172.17.0.1\n[Network]\nZone=clear\n");
    let mut r = RealmConfig::default();
    r.reserved_ip = Some(210);
    let s = network_config(&r, "dns", &mut n).unwrap();
    assert!(s.starts_with("Environment=IFCONFIG_IP=172.17.0.210/24\n"));
    let mut off = RealmConfig::default();
    off.use_network = Some(false);
    assert_eq!(network_config(&off, "x", &mut n).unwrap(), "[Network]\nPrivate=true\n");
    let mut ns = RealmConfig::default();
    ns.netns = Some("vpn".to_string());
    assert_eq!(network_config(&ns, "y", &mut n).unwrap(), "");
    let mut zone = RealmConfig::default();
    zone.network_zone = Some("nowhere".to_string());
    assert_eq!(network_config(&zone, "z", &mut n), Err(Error::NoSuchBridge));
}

#[test]
fn systemd_shell_args() {
    let args = machinectl_shell_args("main", None, false, "user", true, &vec!["/bin/bash".to_string()]);
    assert_eq!(
        args,
        vec!["--quiet", "--setenv=REALM_NAME=main", "shell", "user@main", "/usr/libexec/launch", "/bin/bash"]
    );
    let args = machinectl_shell_args("main", Some("id1"), true, "root", false, &vec![]);
    assert_eq!(
        args,
        vec!["--quiet", "--setenv=REALM_NAME=main", "--setenv=DESKTOP_STARTUP_ID=id1", "--setenv=GDK_BACKEND=wayland", "shell", "root@main"]
    );
}

#[test]
fn realm_config_defaults_and_inheritance() {
    let d = RealmConfig::default();
    assert!(d.shared_dir());
    assert!(!d.ephemeral_home());
    assert!(d.sound() && d.x11() && d.wayland() && d.network());
    assert!(!d.kvm() && !d.gpu() && !d.gpu_card0() && !d.system_realm() && !d.autostart());
    assert_eq!(d.network_zone(), "clear");
    assert_eq!(d.realmfs(), "base");
    assert_eq!(d.overlay(), OverlayType::Storage);
    assert_eq!(d.ephemeral_persistent_dirs(), vec!["Documents".to_string()]);
    assert_eq!(d.reserved_ip(), None);
    assert_eq!(d.terminal_scheme(), None);
    let mut c = RealmConfig::unloaded_realm_config("main");
    assert_eq!(c.path(), "/realms/realm-main/config");
    let mut g = RealmConfig::empty();
    g.use_kvm = Some(true);
    let global = RealmConfig::load_global_config(Some(g));
    assert!(global.kvm());
    assert!(global.sound());
    let mut mine = RealmConfig::empty();
    mine.use_sound = Some(false);
    c.reload(Some(mine), 7, global);
    assert!(!c.sound());
    assert!(c.kvm());
    assert!(!c.is_stale(7));
    assert!(c.is_stale(8));
    assert_eq!(c.path(), "/realms/realm-main/config");
}

#[test]
fn overlay_types() {
    assert_eq!(OverlayType::from_str_value("tmpfs"), OverlayType::TmpFS);
    assert_eq!(OverlayType::from_str_value("storage"), OverlayType::Storage);
    assert_eq!(OverlayType::from_str_value("none"), OverlayType::Disabled);
    assert_eq!(OverlayType::Storage.to_str_value(), Some("storage"));
    assert_eq!(OverlayType::Disabled.to_str_value(), None);
    assert!(RealmOverlay::for_realm("main", OverlayType::Disabled).is_none());
    let o = RealmOverlay::for_realm("main", OverlayType::TmpFS).unwrap();
    assert_eq!(o.overlay(), OverlayType::TmpFS);
}

#[test]
fn event_listener_states() {
    let mut s = ListenerState::new();
    assert!(!s.notify_stop());
    assert!(s.start());
    assert!(!s.start());
    assert!(!s.quit_requested());
    assert!(s.notify_stop());
    assert!(s.quit_requested());
    assert!(!s.notify_stop());
    s.stopped();
    assert_eq!(s, ListenerState::new());
    assert!(s.start());
    s.start_failed();
    assert!(!s.running);
}

#[test]
fn realm_processes() {
    assert_eq!(proc_rootfs(1234), "/proc/1234/root");
    assert_eq!(parse_leader_pid("4321"), Some(4321));
    assert_eq!(parse_leader_pid(""), None);
    assert_eq!(parse_leader_pid("12a"), None);
    assert_eq!(parse_leader_pid("4294967296"), None);
}

fn pairs(v: &[(&str, &str)]) -> Vec<(String, String)> {
    v.iter().map(|(a, b)| (a.to_string(), b.to_string())).collect()
}

#[test]
fn realmfs_fork_plans() {
    assert_eq!(realmfs_forks("main", true, true, "base", false, false), Ok(vec![]));
    assert_eq!(realmfs_forks("main", false, true, "base", true, true), Err(Error::SealedMode));
    assert_eq!(realmfs_forks("main", false, false, "base", true, true), Ok(pairs(&[("base", "main")])));
    assert_eq!(
        realmfs_forks("main", false, false, "work", false, true),
        Ok(pairs(&[("base", "work"), ("work", "main")]))
    );
    assert_eq!(realmfs_forks("work", false, false, "work", false, true), Ok(pairs(&[("base", "work")])));
    assert_eq!(realmfs_forks("main", false, false, "work", false, false), Err(Error::NoDefaultRealmfs));
    assert_eq!(realmfs_forks("base", false, false, "base", true, true), Ok(vec![]));
}

#[test]
fn manager_decisions() {
    assert_eq!(plan_set_current(true, false), CurrentPlan::AlreadyCurrent);
    assert_eq!(plan_set_current(false, false), CurrentPlan::StartThenSet);
    assert_eq!(plan_set_current(false, true), CurrentPlan::MakeCurrent);
    assert_eq!(boot_realm(Some(2)), Ok(2));
    assert_eq!(boot_realm(None), Err(Error::NoDefaultRealm));
    assert_eq!(check_realmfs_deletable(true, false), Err(Error::RealmfsInUse));
    assert_eq!(check_realmfs_deletable(false, true), Err(Error::RealmfsActivated));
    assert_eq!(check_realmfs_deletable(false, false), Ok(()));
}

#[test]
fn network_state_file_path() {
    assert_eq!(libcitadel::realm::network::state_file_path("clear"), "/run/citadel/realms/network-clear");
}

#[test]
fn start_order_dependency_of_a_dependency_comes_first() {
    // T depends on A and B, and A depends on B: B must start before A.
    let nodes = vec![node("t", false, &["a", "b"]), node("a", false, &["b"]), node("b", false, &[])];
    assert_eq!(start_order(&nodes, 0), vec![2, 1, 0]);
}
