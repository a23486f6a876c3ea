use libcitadel::cmdline::CommandLine;
use libcitadel::config::OsRelease;
use libcitadel::error::Error;
use libcitadel::header::{ImageHeader, MetaInfo};
use libcitadel::keys::devkeys;
use libcitadel::partition::{is_path_rootfs, sorted_by_path, Partition};
use libcitadel::resource::{
    compare_images, image_matches, kernel_version_of_release, manifest_paths, path_extension,
    rootfs_channel, select_image, ResourceImage,
};

fn meta(image_type: &str, channel: &str, version: u32, timestamp: &str) -> MetaInfo {
    MetaInfo::new(
        image_type.to_string(),
        channel.to_string(),
        Some("5.4.1".to_string()),
        Some("k1".to_string()),
        if image_type == "realmfs" { Some("main".to_string()) } else { None },
        None,
        version,
        timestamp.to_string(),
        10,
        "sum".to_string(),
        "salt".to_string(),
        "root".to_string(),
    )
}

fn header(m: MetaInfo) -> ImageHeader {
    let mut h = ImageHeader::new();
    h.set_metainfo_bytes(b"doc", Some(m)).unwrap();
    h
}

fn image(path: &str, m: MetaInfo) -> ResourceImage {
    ResourceImage::from_path(path, header(m), 0).unwrap()
}

fn image_at(path: &str, m: MetaInfo, created: i64) -> ResourceImage {
    ResourceImage::from_path(path, header(m), created).unwrap()
}

#[test]
fn resource_image_basics() {
    let img = image("/run/citadel/images/extra.img", meta("extra", "dev", 1, "10"));
    assert!(img.is_valid_image());
    assert_eq!(img.path(), "/run/citadel/images/extra.img");
    assert_eq!(img.mount_path(), "/run/citadel/images/extra.mountpoint");
    assert!(!img.is_compressed());
    assert!(!img.has_verity_hashtree());
    assert_eq!(img.ensure_rootfs(), Err(Error::NotRootfs));
    let rfs = image("/x/main.img", meta("realmfs", "dev", 1, "10"));
    assert_eq!(rfs.mount_path(), "/run/citadel/images/main-realmfs.mountpoint");
    let bad = ResourceImage::from_path("/x/y.img", ImageHeader::from_slice(&[0u8; 4096], None).unwrap(), 0);
    assert!(matches!(bad, Err(Error::BadHeader)));
    let mut root = image("/x/rootfs.img", meta("rootfs", "dev", 1, "10"));
    assert_eq!(root.ensure_rootfs(), Ok(()));
    root.header_mut().set_flag(ImageHeader::FLAG_DATA_COMPRESSED);
    assert!(root.is_compressed());
}

#[test]
fn resource_manifest_lines() {
    assert_eq!(manifest_paths("/usr/share/x"), Ok(("usr/share/x".to_string(), "usr/share/x".to_string())));
    assert_eq!(manifest_paths("/a:/b/c"), Ok(("a".to_string(), "b/c".to_string())));
    assert_eq!(manifest_paths("a:b:c"), Err(Error::BadManifestLine));
    let img = image("/r/extra.img", meta("extra", "dev", 1, "10"));
    assert_eq!(
        img.process_manifest_line("/opt:/usr/opt"),
        Ok(("/run/citadel/images/extra.mountpoint/opt".to_string(), "/sysroot/usr/opt".to_string()))
    );
    assert_eq!(path_extension("/a/b.img"), Some("img".to_string()));
    assert_eq!(path_extension("/a/b"), None);
}

#[test]
fn resource_image_choice() {
    let a = image_at("/r/a.img", meta("rootfs", "dev", 2, "100"), 900);
    let b = image_at("/r/b.img", meta("rootfs", "dev", 3, "50"), 100);
    assert_eq!(compare_images(Some(a), b).path(), "/r/b.img");
    // equal versions: the file created most recently wins, whatever the build timestamp
    let a = image_at("/r/a.img", meta("rootfs", "dev", 3, "100"), 100);
    let b = image_at("/r/b.img", meta("rootfs", "dev", 3, "50"), 200);
    assert_eq!(compare_images(Some(a), b).path(), "/r/b.img");
    let a = image_at("/r/a.img", meta("rootfs", "dev", 3, "50"), 300);
    let b = image_at("/r/b.img", meta("rootfs", "dev", 3, "100"), 200);
    assert_eq!(compare_images(Some(a), b).path(), "/r/a.img");
    let a = image_at("/r/a.img", meta("rootfs", "dev", 3, "50"), 200);
    let b = image_at("/r/b.img", meta("rootfs", "dev", 3, "50"), 200);
    assert_eq!(compare_images(Some(a), b).path(), "/r/b.img");
    let b = image("/r/b.img", meta("rootfs", "dev", 3, "50"));
    assert_eq!(compare_images(None, b).path(), "/r/b.img");
    // a timestamp that is not a number no longer matters
    let a = image_at("/r/a.img", meta("rootfs", "dev", 3, "soon"), 500);
    let b = image_at("/r/b.img", meta("rootfs", "dev", 3, "50"), 400);
    assert_eq!(compare_images(Some(a), b).path(), "/r/a.img");

    let imgs = vec![
        image_at("/r/1.img", meta("rootfs", "dev", 1, "1"), 10),
        image_at("/r/2.img", meta("rootfs", "dev", 5, "1"), 5),
        image_at("/r/3.img", meta("rootfs", "dev", 4, "1"), 20),
        image_at("/r/4.img", meta("rootfs", "dev", 5, "1"), 7),
    ];
    assert_eq!(select_image(imgs, true).unwrap().path(), "/r/4.img");
    let imgs = vec![image("/r/1.img", meta("rootfs", "dev", 1, "1")), image("/r/2.img", meta("rootfs", "dev", 5, "1"))];
    assert_eq!(select_image(imgs, false).unwrap().path(), "/r/1.img");
    assert!(select_image(vec![], true).is_none());
    assert!(select_image(vec![], false).is_none());
}

#[test]
fn resource_search_matching() {
    let h = header(meta("kernel", "dev", 1, "1"));
    assert!(image_matches(&h, "kernel", Some("dev"), Some("5.4.1"), Some("k1")));
    assert!(!image_matches(&h, "kernel", Some("dev"), Some("5.4.2"), Some("k1")));
    assert!(!image_matches(&h, "kernel", Some("stable"), Some("5.4.1"), Some("k1")));
    assert!(image_matches(&h, "kernel", None, Some("5.4.1"), Some("k1")));
    assert!(!image_matches(&h, "rootfs", None, None, None));
    let r = header(meta("rootfs", "dev", 1, "1"));
    assert!(image_matches(&r, "rootfs", Some("dev"), None, None));
    assert_eq!(kernel_version_of_release("5.4.1-citadel"), "5.4.1");
    assert_eq!(kernel_version_of_release("6.1"), "6.1");
    assert_eq!(rootfs_channel(&CommandLine::new()), "dev");
    assert_eq!(rootfs_channel(&CommandLine::parse("citadel.channel=beta:00")), "beta");
}

fn signed_rootfs_header(status: u8, good_sig: bool) -> ImageHeader {
    let keys = devkeys().unwrap();
    let mut h = ImageHeader::new();
    let doc = b"image-type = \"rootfs\"\nchannel = \"dev\"\n";
    h.set_metainfo_bytes(doc, Some(meta("rootfs", "dev", 1, "1"))).unwrap();
    let mut sig = keys.sign(doc).to_bytes().to_vec();
    if !good_sig {
        sig[3] ^= 0xff;
    }
    h.set_signature(&sig).unwrap();
    h.set_status(status);
    h
}

#[test]
fn partition_boot_scan() {
    let osr = OsRelease::load_file("").unwrap();
    let cl = CommandLine::new();
    assert!(is_path_rootfs("/dev/mapper/citadel-rootfsA"));
    assert!(!is_path_rootfs("/dev/sda1"));

    let mut p = Partition::new("/dev/mapper/citadel-rootfsA", signed_rootfs_header(ImageHeader::STATUS_TRY_BOOT, true), &osr, &cl, false);
    assert!(p.is_initialized());
    assert!(p.has_public_key());
    assert!(p.is_signature_valid());
    assert!(p.boot_scan());
    assert_eq!(p.header().status(), ImageHeader::STATUS_FAILED);
    assert!(!p.boot_scan());

    let mut q = Partition::new("/dev/mapper/citadel-rootfsB", signed_rootfs_header(ImageHeader::STATUS_BAD_SIG, true), &osr, &cl, true);
    assert!(q.is_sig_failed());
    assert!(q.is_mounted());
    assert!(q.boot_scan());
    assert!(q.is_new());

    let mut r = Partition::new("/x", signed_rootfs_header(ImageHeader::STATUS_BAD_SIG, false), &osr, &cl, false);
    assert!(!r.is_signature_valid());
    assert!(!r.boot_scan());
    assert!(r.is_sig_failed());

    let mut s = Partition::new("/y", signed_rootfs_header(ImageHeader::STATUS_TRY_BOOT, true), &osr, &cl, false);
    assert!(s.bless());
    assert!(s.is_good());
    assert!(!s.bless());
    s.set_flag(ImageHeader::FLAG_PREFER_BOOT);
    assert!(s.is_preferred());
    s.clear_flag(ImageHeader::FLAG_PREFER_BOOT);
    assert!(!s.is_preferred());

    let empty = Partition::new("/z", ImageHeader::from_slice(&[0u8; 4096], None).unwrap(), &osr, &cl, false);
    assert!(!empty.is_initialized());
    assert_eq!(empty.path(), "/z");
}

#[test]
fn resource_signature_check() {
    let osr = OsRelease::load_file("").unwrap();
    let cl = CommandLine::new();
    let good = ResourceImage::from_path("/r/rootfs.img", signed_rootfs_header(1, true), 0).unwrap();
    assert_eq!(good.check_signature(&osr, &cl), Ok(()));
    let bad = ResourceImage::from_path("/r/rootfs.img", signed_rootfs_header(1, false), 0).unwrap();
    assert_eq!(bad.check_signature(&osr, &cl), Err(Error::BadSignature));
    assert_eq!(bad.check_signature(&osr, &CommandLine::parse("citadel.nosignatures")), Ok(()));
    let stable = image("/r/s.img", meta("rootfs", "stable", 1, "1"));
    assert_eq!(stable.check_signature(&osr, &cl), Err(Error::NoPublicKey));
}

#[test]
fn partitions_in_path_order() {
    let osr = OsRelease::load_file("").unwrap();
    let cl = CommandLine::new();
    let mk = |p: &str| Partition::new(p, ImageHeader::from_slice(&[0u8; 4096], None).unwrap(), &osr, &cl, false);
    let v = sorted_by_path(vec![mk("/dev/mapper/citadel-rootfsB"), mk("/dev/mapper/citadel-rootfsA")]);
    let paths: Vec<&str> = v.iter().map(|p| p.path()).collect();
    assert_eq!(paths, vec!["/dev/mapper/citadel-rootfsA", "/dev/mapper/citadel-rootfsB"]);
}
