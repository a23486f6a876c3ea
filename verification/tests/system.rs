use libcitadel::disks::{is_esp_guid, DiskPartition, ESP_GUID};
use libcitadel::error::Error;
use libcitadel::exec::{check_cmd_status, command_args, search_path_candidates, CommandFailure};
use libcitadel::mount::Mount;
use libcitadel::path::{components, extension_of, file_name, join, path_eq, path_starts_with};
use libcitadel::path_ext::{setup_loop_args, verity_regenerate_args, verity_setup_args, FileTypeResult};
use libcitadel::system::loopdev::LoopDevice;
use libcitadel::system::mounts::{MountLine, Mounts};
use libcitadel::text::{
    decimal_string, hex_string, hex_string_padded, lines, parse_unsigned, replace_all, split_char,
    split_once, split_whitespace, trim, trim_end_matches, trim_start_matches,
};
use libcitadel::util::{first_word, is_first_char_alphabetic, is_valid_name, FileRange};

const MOUNTS: &str = "sysfs /sys sysfs rw,nosuid 0 0\n\
/dev/loop2 /run/citadel/realmfs/realmfs-main-ro.mountpoint ext4 ro,relatime 0 0\n\
short line\n\
/dev/sda1 /boot vfat rw,fmask=0022 0 0\n";

#[test]
fn text_helpers() {
    assert_eq!(split_whitespace("  a  b\tc \n"), vec!["a", "b", "c"]);
    assert_eq!(split_char("a::b", ':'), vec!["a", "", "b"]);
    assert_eq!(split_once("k=v=w", '='), ("k".to_string(), Some("v=w".to_string())));
    assert_eq!(split_once("kv", '='), ("kv".to_string(), None));
    assert_eq!(lines("a\r\nb\n\nc"), vec!["a", "b", "", "c"]);
    assert_eq!(lines("a\n"), vec!["a"]);
    assert_eq!(trim("  x y \t"), "x y");
    assert_eq!(trim_start_matches("ababc", "ab"), "c");
    assert_eq!(trim_end_matches("cabab", "ab"), "c");
    assert_eq!(replace_all("a$Xb$X", "$X", "yy"), "ayybyy");
    assert_eq!(parse_unsigned("255", 10, 255), Some(255));
    assert_eq!(parse_unsigned("256", 10, 255), None);
    assert_eq!(parse_unsigned("ff", 16, 0xffff), Some(255));
    assert_eq!(parse_unsigned("", 10, 10), None);
    assert_eq!(decimal_string(1234567890), "1234567890");
    assert_eq!(hex_string(0xabc), "abc");
    assert_eq!(hex_string_padded(0xa, 4), "000a");
}

#[test]
fn paths() {
    assert_eq!(components("/a//b/./c/"), vec!["/", "a", "b", "c"]);
    assert!(path_eq("/a/b", "/a//b/"));
    assert!(!path_eq("/a/b", "/a/c"));
    assert!(path_starts_with("/run/citadel/realms/x", "/run/citadel"));
    assert!(!path_starts_with("/run/citadelx", "/run/citadel"));
    assert_eq!(join("/realms", "realm-main"), "/realms/realm-main");
    assert_eq!(join("/realms", "/abs"), "/abs");
    assert_eq!(file_name("/a/b.txt"), Some("b.txt".to_string()));
    assert_eq!(file_name("/"), None);
    assert_eq!(extension_of("b.tar.xz"), Some("xz".to_string()));
    assert_eq!(extension_of(".hidden"), None);
    assert_eq!(extension_of("plain"), None);
}

#[test]
fn names_and_words() {
    assert!(is_valid_name("abc-1", 8));
    assert!(!is_valid_name("abc-1", 4));
    assert!(!is_valid_name("-abc", 8));
    assert!(is_first_char_alphabetic("a1"));
    assert!(!is_first_char_alphabetic("1a"));
    assert!(!is_first_char_alphabetic(""));
    assert_eq!(first_word("abc123  /path/file\n"), "abc123");
    assert_eq!(FileRange::All.offset(), 0);
    assert_eq!(FileRange::All.limit(), None);
    assert_eq!(FileRange::Offset(10).offset(), 10);
    assert_eq!(FileRange::Offset(10).limit(), None);
    assert_eq!(FileRange::Range { offset: 5, len: 20 }.offset(), 5);
    assert_eq!(FileRange::Range { offset: 5, len: 20 }.limit(), Some(20));
}

#[test]
fn commands() {
    assert_eq!(command_args("--offset 4096 -f --show /img"), vec!["--offset", "4096", "-f", "--show", "/img"]);
    assert_eq!(
        search_path_candidates("/bin:/usr/bin", "ls"),
        vec!["/bin/ls", "/usr/bin/ls"]
    );
    assert_eq!(check_cmd_status(true, Some(1)), Ok(()));
    assert_eq!(check_cmd_status(false, Some(2)), Err(CommandFailure::ExitCode(2)));
    assert_eq!(check_cmd_status(false, None), Err(CommandFailure::NoExitCode));
}

#[test]
fn mount_table() {
    let all = Mount::all_mounts(MOUNTS);
    assert_eq!(all.len(), 3);
    assert_eq!(all[1].source(), "/dev/loop2");
    assert_eq!(all[1].target(), "/run/citadel/realmfs/realmfs-main-ro.mountpoint");
    assert_eq!(all[1].fstype(), "ext4");
    assert_eq!(all[1].options(), "ro,relatime");
    assert!(Mount::is_path_mounted(MOUNTS, "/dev/sda1"));
    assert!(!Mount::is_path_mounted(MOUNTS, "/boot"));

    let m = Mounts::new(MOUNTS.to_string());
    assert!(m.is_source_mounted("/dev/sda1"));
    assert!(m.is_target_mounted("/boot/"));
    assert!(!m.is_target_mounted("/nope"));
    assert_eq!(m.mounts().len(), 3);
    let line = MountLine::new("/dev/sda1 /boot vfat rw,fmask=0022 0 0").unwrap();
    let opts = line.options();
    assert_eq!(opts.get("fmask").map(|s| s.as_str()), Some("0022"));
    assert_eq!(opts.get("rw").map(|s| s.as_str()), Some(""));
    assert!(MountLine::new("a b c").is_none());
}

#[test]
fn loop_devices() {
    assert_eq!(LoopDevice::create_args("/img", Some(4096), true), "--offset 4096 --read-only -f --show /img");
    assert_eq!(LoopDevice::create_args("/img", None, false), "-f --show /img");
    let m = Mounts::new(MOUNTS.to_string());
    let d = LoopDevice::find_mounted_loop(&m, "/run/citadel/realmfs/realmfs-main-ro.mountpoint").unwrap();
    assert_eq!(d.device(), "/dev/loop2");
    assert!(LoopDevice::find_mounted_loop(&m, "/boot").is_none());
    let found = LoopDevice::find_devices_for("/dev/loop1: [0036]:64845938 (/img), offset 4096\n/dev/loop4: [0036]:1 (/img)\n");
    let names: Vec<&str> = found.iter().map(|d| d.device()).collect();
    assert_eq!(names, vec!["/dev/loop1", "/dev/loop4"]);
}

#[test]
fn disk_partitions() {
    let p = DiskPartition::from_proc_line("   8        1     523264 sda1").unwrap();
    assert_eq!(p.path(), "/dev/sda1");
    assert_eq!(p.major(), 8);
    assert_eq!(p.minor(), 1);
    assert_eq!(p.blocks(), 523264);
    assert!(DiskPartition::from_proc_line("8 1 sda1").is_err());
    let nvme = DiskPartition::from_proc_line("259 1 523264 nvme0n1p1").unwrap();
    assert_eq!(nvme.major(), 259);
    assert_eq!(nvme.path(), "/dev/nvme0n1p1");
    assert!(DiskPartition::from_proc_line("4294967296 1 5 sda1").is_err());
    assert!(DiskPartition::from_proc_line("x 1 5 sda1").is_err());
    let lines = vec![
        "major minor  #blocks  name".to_string(),
        "".to_string(),
        "   8        0  1000 sda".to_string(),
        "   8        1   500 sda1".to_string(),
        " 259        1   523264 nvme0n1p1".to_string(),
    ];
    let parts = DiskPartition::parse_partitions(&lines).unwrap();
    assert_eq!(parts.len(), 3);
    assert_eq!(parts[2].path(), "/dev/nvme0n1p1");
    assert_eq!(parts[1].path(), "/dev/sda1");
    let bad = vec!["h".to_string(), "".to_string(), "x y".to_string()];
    assert!(DiskPartition::parse_partitions(&bad).is_err());
    assert!(is_esp_guid(ESP_GUID));
    assert!(!is_esp_guid("0fc63daf-8483-4772-8e79-3d69d8477de4"));
}

#[test]
fn file_type_output() {
    assert!(FileTypeResult::new("XZ compressed data".to_string()).is_xz_compressed());
    assert!(!FileTypeResult::new("data".to_string()).is_xz_compressed());
    assert!(FileTypeResult::new("Linux rev 1.0 ext2 filesystem data, UUID=1".to_string()).is_ext2_image());
    assert_eq!(FileTypeResult::new("out".to_string()).output(), "out");
}

#[test]
fn symlink_temporary_paths() {
    assert_eq!(
        libcitadel::path::symlink_tmp_path("/run/citadel/realms/current/current.realm", true),
        "/run/citadel/realms/current.realm.tmp"
    );
    assert_eq!(
        libcitadel::path::symlink_tmp_path("/run/citadel/realms/current/current.realm", false),
        "/run/citadel/realms/current/current.realm.tmp"
    );
    assert_eq!(libcitadel::path::symlink_tmp_path("a/b", false), "a/b.tmp");
    assert_eq!(libcitadel::path::symlink_tmp_path("/realms/default.realm", true), "/default.realm.tmp");
}

#[test]
fn image_command_arguments() {
    assert_eq!(
        setup_loop_args("/img", Some(4096), Some(100)),
        vec!["--offset", "4096", "--sizelimit", "100", "-f", "/img"]
    );
    assert_eq!(setup_loop_args("/img", None, None), vec!["-f", "/img"]);
    assert_eq!(
        verity_regenerate_args("/img", 8192, 2, "ab"),
        vec!["--hash-offset=8192", "--data-blocks=2", "--salt=ab", "format", "/img", "/img"]
    );
    assert_eq!(
        verity_setup_args("/img", 8192, 2, "ff00", "rootfs"),
        vec!["--hash-offset=8192", "--data-blocks=2", "create", "rootfs", "/img", "/img", "ff00"]
    );
}
