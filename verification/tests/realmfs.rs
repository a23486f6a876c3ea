use libcitadel::error::Error;
use libcitadel::header::{ImageHeader, MetaInfo};
use libcitadel::realm::manager::{
    active_mountpoints, realms_for_activation, release_detached, release_mountpoint,
    release_needs_teardown, DetachedStep, ReleaseStep,
};
use libcitadel::realm::realm::choose_mountpoint;
use libcitadel::realmfs::activator::{Activation, ActivationState};
use libcitadel::realmfs::image::{
    backup_path, check_activate, check_realmfs_header, check_unsealed, file_nblocks,
    generate_sealed_metainfo, generate_unsealed_metainfo, image_path, is_sealed, is_user_realmfs,
    is_valid_realmfs_name, metainfo_nblocks, rotate_plan, seal_header, truncate_verity_action,
    validate_name, TruncateAction,
};
use libcitadel::realmfs::mountpoint::Mountpoint;
use libcitadel::realmfs::resizer::{auto_resize_size, ImageResizer, ResizeSize, Superblock};
use libcitadel::realmfs::set::{realmfs_name_of_file, RealmFSSet};
use libcitadel::keys::devkeys;
use libcitadel::realmfs::update::{
    update_name, update_shell_args, Update, UpdateAction, UpdateType, OPEN_SHELL_COMMAND,
};
use libcitadel::system::loopdev::LoopDevice;
use libcitadel::verity::Verity;

fn loop_activation(name: &str) -> Activation {
    let (ro, rw) = Mountpoint::new_loop_pair(name);
    Activation::new_loop(ro, rw, LoopDevice::new("/dev/loop3"))
}

#[test]
fn realmfs_names_and_paths() {
    assert!(is_valid_realmfs_name("base"));
    assert!(!is_valid_realmfs_name(&"a".repeat(41)));
    assert!(is_valid_realmfs_name(&"a".repeat(40)));
    assert_eq!(validate_name("9lives"), Err(Error::InvalidName));
    assert_eq!(validate_name("main"), Ok(()));
    assert_eq!(image_path("main"), "/storage/realms/realmfs-images/main-realmfs.img");
    assert_eq!(backup_path("main", 1), "/storage/realms/realmfs-images/main-realmfs.img.1");
    assert_eq!(
        rotate_plan("main"),
        vec![(
            "/storage/realms/realmfs-images/main-realmfs.img.0".to_string(),
            "/storage/realms/realmfs-images/main-realmfs.img.1".to_string()
        )]
    );
    assert_eq!(update_name("main"), "main-update");
    assert_eq!(realmfs_name_of_file("main-realmfs.img"), Some("main".to_string()));
    assert_eq!(realmfs_name_of_file("main-realmfs.img-realmfs.img"), Some("main".to_string()));
    assert_eq!(realmfs_name_of_file("main-realmfs.img.1"), None);
    assert_eq!(realmfs_name_of_file("-realmfs.img"), None);
    assert_eq!(realmfs_name_of_file("bad_name-realmfs.img"), None);
}

#[test]
fn realmfs_metainfo_text() {
    assert_eq!(
        generate_unsealed_metainfo("main", 1000, Some("work")),
        "image-type = \"realmfs\"\nrealmfs-name = \"main\"\nnblocks = 1000\nrealmfs-owner = \"work\"\n"
    );
    assert_eq!(
        generate_sealed_metainfo("main", 7, "s1", "r1"),
        "image-type = \"realmfs\"\nrealmfs-name = \"main\"\nnblocks = 7\nchannel = \"realmfs-user\"\nverity-salt = \"s1\"\nverity-root = \"r1\"\n"
    );
}

fn header_with(image_type: &str, name: Option<&str>, channel: &str, root: &str) -> ImageHeader {
    let mut h = ImageHeader::new();
    let m = MetaInfo::new(
        image_type.to_string(),
        channel.to_string(),
        None,
        None,
        name.map(|s| s.to_string()),
        None,
        1,
        String::new(),
        99,
        String::new(),
        String::new(),
        root.to_string(),
    );
    h.set_metainfo_bytes(b"x", Some(m)).unwrap();
    h
}

#[test]
fn realmfs_header_checks() {
    assert_eq!(check_realmfs_header(&header_with("realmfs", Some("main"), "", "")), Ok(()));
    assert_eq!(check_realmfs_header(&header_with("rootfs", Some("main"), "", "")), Err(Error::NotRealmfs));
    assert_eq!(check_realmfs_header(&header_with("realmfs", None, "", "")), Err(Error::NoRealmfsName));
    assert_eq!(check_realmfs_header(&header_with("realmfs", Some("a b"), "", "")), Err(Error::InvalidName));
    let bad = ImageHeader::from_slice(&[0u8; 4096], None).unwrap();
    assert_eq!(check_realmfs_header(&bad), Err(Error::BadHeader));
    let unsealed = header_with("realmfs", Some("main"), "", "");
    assert!(!is_sealed(&unsealed));
    assert!(is_user_realmfs(&unsealed));
    assert_eq!(metainfo_nblocks(&unsealed), 100);
    let sealed_user = header_with("realmfs", Some("main"), "realmfs-user", "abc");
    assert!(is_sealed(&sealed_user));
    assert!(is_user_realmfs(&sealed_user));
    let sealed_other = header_with("realmfs", Some("main"), "dev", "abc");
    assert!(!is_user_realmfs(&sealed_other));
}

#[test]
fn realmfs_file_sizes() {
    assert_eq!(file_nblocks(4096 * 100, 99), Ok(100));
    assert_eq!(file_nblocks(4096 * 120, 99), Ok(120));
    assert_eq!(file_nblocks(4096 * 99, 99), Err(Error::FileTooShort));
    assert_eq!(file_nblocks(4097, 0), Err(Error::BadFileSize));
    assert_eq!(truncate_verity_action(true, 150, 100), TruncateAction::Truncate(409600));
    assert_eq!(truncate_verity_action(false, 150, 100), TruncateAction::WarnLonger);
    assert_eq!(truncate_verity_action(false, 100, 100), TruncateAction::Nothing);
    assert_eq!(check_activate(true, false, false), Err(Error::SealedMode));
    assert_eq!(check_activate(true, false, true), Ok(()));
    assert_eq!(check_activate(true, true, false), Ok(()));
    assert_eq!(check_activate(false, false, false), Ok(()));
    assert_eq!(check_unsealed(true), Err(Error::Sealed));
    assert_eq!(check_unsealed(false), Ok(()));
}

#[test]
fn resize_sizes() {
    assert_eq!(ResizeSize::gigs(2).nblocks(), 524288);
    assert_eq!(ResizeSize::megs(3).nblocks(), 768);
    assert_eq!(ResizeSize::blocks(300000).size_in_gb(), 1);
    assert_eq!(ResizeSize::blocks(300000).size_in_mb(), 1171);
    assert_eq!(ResizeSize::gigs(3).size_in_gb(), 3);
    assert_eq!(ResizeSize::megs(700).size_in_mb(), 700);
}

#[test]
fn resize_decisions() {
    let r = ImageResizer::new(1000, false);
    assert_eq!(r.grow_to(ResizeSize::blocks(500)), Ok(None));
    assert_eq!(r.grow_to(ResizeSize::blocks(1000)), Ok(None));
    assert_eq!(r.grow_to(ResizeSize::blocks(5000)), Ok(Some(5000)));
    assert_eq!(r.grow_by(ResizeSize::gigs(8)), Ok(1000 + 2097152));
    assert_eq!(r.grow_by(ResizeSize::blocks(2097153)), Err(Error::GrowTooLarge));
    let s = ImageResizer::new(1000, true);
    assert_eq!(s.grow_by(ResizeSize::blocks(1)), Err(Error::Sealed));
    assert_eq!(s.grow_to(ResizeSize::blocks(10)), Ok(None));
    assert_eq!(s.grow_to(ResizeSize::blocks(2000)), Err(Error::Sealed));
}

fn superblock(free: u64) -> Superblock {
    let mut b = [0u8; 1024];
    b[0x0C..0x10].copy_from_slice(&((free & 0xffff_ffff) as u32).to_le_bytes());
    b[0x158..0x15C].copy_from_slice(&((free >> 32) as u32).to_le_bytes());
    Superblock::from_bytes(b)
}

#[test]
fn superblock_free_blocks() {
    assert_eq!(superblock(0x1234_5678).free_block_count(), 0x1234_5678);
    assert_eq!(superblock(0x2_0000_0001).free_block_count(), 0x2_0000_0001);
    assert_eq!(auto_resize_size(&superblock(262144), 2_000_000), None);
    assert_eq!(auto_resize_size(&superblock(1 << 40), 10), None);
    assert_eq!(auto_resize_size(&superblock(1), 1000), Some(ResizeSize(1049576)));
    assert_eq!(auto_resize_size(&superblock(262143), 2_000_000), Some(ResizeSize(3048576)));
    assert_eq!(auto_resize_size(&superblock(0), 1_500_000), Some(ResizeSize(2548576)));
    let size = auto_resize_size(&superblock(0), 1_500_000).unwrap();
    let r = ImageResizer::new(1_500_000, false);
    assert_eq!(r.grow_to(size), Ok(Some(2548576)));
}

#[test]
fn mountpoints() {
    let (ro, rw) = Mountpoint::new_loop_pair("main");
    assert_eq!(ro.path(), "/run/citadel/realmfs/realmfs-main-ro.mountpoint");
    assert_eq!(rw.path(), "/run/citadel/realmfs/realmfs-main-rw.mountpoint");
    assert!(ro.is_valid());
    assert_eq!(ro.realmfs(), "main");
    assert_eq!(ro.tag(), "ro");
    assert_eq!(Verity::device_name_for_mountpoint(&ro), "verity-realmfs-main-ro");
    assert!(!Mountpoint::from_path("/tmp/realmfs-main-ro.mountpoint").is_valid());
    let dashed = Mountpoint::from_path("/run/citadel/realmfs/realmfs-my-fs-ro.mountpoint");
    assert!(dashed.is_valid());
    assert_eq!(dashed.realmfs(), "my-fs");
    assert_eq!(dashed.tag(), "ro");
    let update = Mountpoint::new("main-update", "rw");
    assert!(update.is_valid());
    assert_eq!(update.realmfs(), "main-update");
    assert_eq!(update.tag(), "rw");
    assert_eq!(Verity::device_name_for_mountpoint(&update), "verity-realmfs-main-update-rw");
    assert!(!Mountpoint::from_path("/run/citadel/realmfs/other-main-ro.mountpoint").is_valid());
    assert!(!Mountpoint::from_path("/run/citadel/realmfs/realmfs-main.mountpoint").is_valid());
    assert!(!Mountpoint::from_path("/run/citadel/realmfs/realmfs-main-ro.mnt").is_valid());
    assert!(ro.same(&Mountpoint::from_path("/run/citadel/realmfs//realmfs-main-ro.mountpoint")));
    assert!(!ro.same(&rw));
}

#[test]
fn activation_state_lifecycle() {
    let a = loop_activation("main");
    let (ro, rw) = Mountpoint::new_loop_pair("main");
    assert!(a.is_mountpoint(&ro));
    assert!(a.is_mountpoint(&rw));
    assert!(!a.is_mountpoint(&Mountpoint::new("other", "ro")));
    assert_eq!(a.device(), "/dev/loop3");
    assert_eq!(a.mountpoint().path(), ro.path());
    assert_eq!(a.mountpoint_rw().unwrap().path(), rw.path());
    assert_eq!(choose_mountpoint(true, &a).unwrap().path(), rw.path());
    let v = Activation::new_verity(Mountpoint::new("main", "abc"), "verity-realmfs-main-abc".to_string());
    assert!(v.mountpoint_rw().is_none());
    assert!(matches!(choose_mountpoint(true, &v), Err(Error::NoWritableMountpoint)));
    assert_eq!(choose_mountpoint(false, &v).unwrap().path(), "/run/citadel/realmfs/realmfs-main-abc.mountpoint");

    let mut st = ActivationState::new();
    assert!(!st.is_activated());
    assert_eq!(st.activate(Err(Error::ActivationFailed)), Err(Error::ActivationFailed));
    assert!(!st.is_activated());
    assert_eq!(st.activate(Ok(a)), Ok(true));
    assert_eq!(st.activate(Ok(loop_activation("other"))), Ok(false));
    assert!(st.get().unwrap().is_mountpoint(&ro));
    let in_use = vec![rw.copy()];
    assert!(st.is_in_use(&in_use));
    assert!(!st.needs_teardown(&in_use));
    assert_eq!(st.deactivate(&in_use, Ok(())), Ok(false));
    assert!(st.is_activated());
    assert!(st.needs_teardown(&vec![]));
    assert_eq!(st.deactivate(&vec![], Err(Error::TeardownFailed)), Err(Error::TeardownFailed));
    assert!(st.is_activated());
    assert_eq!(st.deactivate(&vec![], Ok(())), Ok(true));
    assert!(!st.is_activated());
    assert!(!st.needs_teardown(&vec![]));
    assert_eq!(st.deactivate(&vec![], Ok(())), Ok(false));
}

#[test]
fn mountpoints_of_running_realms() {
    let (ro, rw) = Mountpoint::new_loop_pair("main");
    let mps = vec![Some(ro.copy()), None, Some(rw.copy()), Some(ro.copy())];
    let act = active_mountpoints(&mps);
    let paths: Vec<&str> = act.iter().map(|m| m.path()).collect();
    assert_eq!(paths, vec![ro.path(), rw.path()]);
    let a = loop_activation("main");
    let mps2 = vec![Some(Mountpoint::new("other", "ro")), Some(rw.copy()), None, Some(ro.copy())];
    assert_eq!(realms_for_activation(&mps2, &a), vec![1, 3]);
}

#[test]
fn released_mountpoints() {
    let (ro, _rw) = Mountpoint::new_loop_pair("main");
    let mut owner = Some(ActivationState::new());
    assert_eq!(owner.as_mut().unwrap().activate(Ok(loop_activation("main"))), Ok(true));
    // still in use by another realm: released but not deactivated
    assert!(!release_needs_teardown(&ro, &owner, &vec![ro.copy()]));
    let step = release_mountpoint(&ro, &mut owner, &vec![ro.copy()], Ok(()));
    assert!(matches!(step, ReleaseStep::Released { deactivated: false }));
    assert!(owner.as_ref().unwrap().is_activated());
    // the teardown failed: the activation is kept
    assert!(release_needs_teardown(&ro, &owner, &vec![]));
    let step = release_mountpoint(&ro, &mut owner, &vec![], Err(Error::TeardownFailed));
    assert!(matches!(step, ReleaseStep::Released { deactivated: false }));
    assert!(owner.as_ref().unwrap().is_activated());
    let step = release_mountpoint(&ro, &mut owner, &vec![], Ok(()));
    assert!(matches!(step, ReleaseStep::Released { deactivated: true }));
    assert!(!owner.as_ref().unwrap().is_activated());
    let step = release_mountpoint(&ro, &mut owner, &vec![], Ok(()));
    assert!(matches!(step, ReleaseStep::FindDetached));
    let mut nobody: Option<ActivationState> = None;
    assert!(matches!(release_mountpoint(&ro, &mut nobody, &vec![], Ok(())), ReleaseStep::FindDetached));
    let bad = Mountpoint::from_path("/tmp/x");
    assert!(!release_needs_teardown(&bad, &nobody, &vec![]));
    assert!(matches!(release_mountpoint(&bad, &mut nobody, &vec![], Ok(())), ReleaseStep::Invalid));
    let a = loop_activation("main");
    assert!(matches!(release_detached(Some(&a), &vec![]), DetachedStep::Deactivate));
    assert!(matches!(release_detached(Some(&a), &vec![ro.copy()]), DetachedStep::InUse));
    assert!(matches!(release_detached(None, &vec![]), DetachedStep::NotFound));
}

#[test]
fn update_steps() {
    let mut u = Update::new();
    assert_eq!(u.apply_update(), vec![]);
    u.setup(true);
    assert!(u.target_is_copy());
    u.set_network_allocated();
    assert_eq!(
        u.apply_update(),
        vec![
            UpdateAction::SealCopy,
            UpdateAction::RenameCopyOverImage,
            UpdateAction::DeactivateCopy,
            UpdateAction::RemoveCopyIfExists,
            UpdateAction::FreeNetwork
        ]
    );
    assert_eq!(u.update_type, UpdateType::NotSetup);
    assert_eq!(u.cleanup(), vec![]);
    u.setup(false);
    assert!(!u.target_is_copy());
    assert_eq!(u.cleanup(), vec![UpdateAction::DeactivateImage]);
    assert_eq!(u.cleanup(), vec![]);
}

#[test]
fn realmfs_set_by_name() {
    let mut set: RealmFSSet<u32> = RealmFSSet::new();
    assert!(!set.name_exists("base"));
    set.add("main", 1);
    set.add("base", 2);
    set.add("main", 3);
    assert_eq!(set.by_name("main"), Some(&1));
    assert!(set.name_exists("base"));
    assert_eq!(set.names(), vec!["base".to_string(), "main".to_string()]);
    assert_eq!(set.remove("main"), Some(1));
    assert_eq!(set.remove("main"), None);
    assert_eq!(set.names(), vec!["base".to_string()]);
}

#[test]
fn sealing_a_header() {
    let mut h = ImageHeader::new();
    let doc = generate_unsealed_metainfo("main", 1000, None);
    let m = MetaInfo::new(
        "realmfs".to_string(),
        String::new(),
        None,
        None,
        Some("main".to_string()),
        None,
        0,
        String::new(),
        1000,
        String::new(),
        String::new(),
        String::new(),
    );
    h.set_metainfo_bytes(doc.as_bytes(), Some(m)).unwrap();
    let keys = devkeys().unwrap();
    seal_header(&mut h, "main", "aa11", "bb22", &keys).unwrap();
    let sealed = generate_sealed_metainfo("main", 1000, "aa11", "bb22");
    assert_eq!(h.metainfo_bytes(), sealed.as_bytes().to_vec());
    assert!(h.has_flag(ImageHeader::FLAG_HASH_TREE));
    assert!(h.verify_signature(keys.public_key()));
    assert_eq!(h.signature(), keys.sign(sealed.as_bytes()).to_bytes().to_vec());
    assert_eq!(h.metainfo().verity_root(), "bb22");
    assert_eq!(h.metainfo().verity_salt(), "aa11");
    assert_eq!(h.metainfo().channel(), "realmfs-user");
    assert!(is_sealed(&h));
    let long = "x".repeat(5000);
    let before = h.bytes();
    assert_eq!(seal_header(&mut h, "main", &long, "bb22", &keys), Err(Error::BadMetainfo));
    assert_eq!(h.bytes(), before);
}

#[test]
fn update_shell_arguments() {
    let args = update_shell_args("main-update", "/run/x.mountpoint", "172.17.0.5", "172.17.0.1", OPEN_SHELL_COMMAND);
    assert_eq!(
        args,
        vec![
            "--setenv=IFCONFIG_IP=172.17.0.5",
            "--setenv=IFCONFIG_GW=172.17.0.1",
            "--quiet",
            "--machine=main-update",
            "--directory=/run/x.mountpoint",
            "--network-zone=clear",
            "/bin/bash",
            "-c",
            "/usr/libexec/configure-host0.sh && exec /bin/bash",
        ]
    );
}
