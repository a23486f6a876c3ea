use libcitadel::error::Error;
use libcitadel::header::{ImageHeader, MetaInfo};
use libcitadel::keys::{devkeys, KeyPair};
use libcitadel::verity::Verity;

fn meta(image_type: &str, channel: &str, name: Option<&str>, root: &str) -> MetaInfo {
    MetaInfo::new(
        image_type.to_string(),
        channel.to_string(),
        None,
        None,
        name.map(|s| s.to_string()),
        None,
        3,
        "1600000000".to_string(),
        1024,
        "shasum".to_string(),
        "salt".to_string(),
        root.to_string(),
    )
}

#[test]
fn header_new_is_empty_with_magic() {
    let h = ImageHeader::new();
    assert!(h.is_magic_valid());
    assert!(!h.has_metainfo());
    assert_eq!(h.status(), 0);
    assert_eq!(h.flags(), 0);
    assert_eq!(h.metainfo_len(), 0);
    let b = h.bytes();
    assert_eq!(b.len(), 4096);
    assert_eq!(&b[0..4], b"SGOS");
    assert!(b[4..].iter().all(|x| *x == 0));
}

#[test]
fn header_status_labels() {
    let mut h = ImageHeader::new();
    assert_eq!(h.status_code_label(), "Invalid");
    h.set_status(ImageHeader::STATUS_NEW);
    assert_eq!(h.status(), 1);
    assert_eq!(h.status_code_label(), "New");
    h.set_status(ImageHeader::STATUS_TRY_BOOT);
    assert_eq!(h.status_code_label(), "Try Boot");
    h.set_status(ImageHeader::STATUS_GOOD);
    assert_eq!(h.status_code_label(), "Good");
    h.set_status(ImageHeader::STATUS_FAILED);
    assert_eq!(h.status_code_label(), "Failed Boot");
    h.set_status(ImageHeader::STATUS_BAD_SIG);
    assert_eq!(h.status_code_label(), "Bad Signature");
    h.set_status(ImageHeader::STATUS_BAD_META);
    assert_eq!(h.status_code_label(), "Bad Metainfo");
    h.set_status(42);
    assert_eq!(h.status_code_label(), "Invalid status code: 42");
}

#[test]
fn header_flags_change_reports() {
    let mut h = ImageHeader::new();
    assert!(h.set_flag(ImageHeader::FLAG_HASH_TREE));
    assert!(!h.set_flag(ImageHeader::FLAG_HASH_TREE));
    assert!(h.has_flag(ImageHeader::FLAG_HASH_TREE));
    assert!(!h.has_flag(ImageHeader::FLAG_DATA_COMPRESSED));
    assert!(h.set_flag(ImageHeader::FLAG_PREFER_BOOT));
    assert_eq!(h.flags(), 0x03);
    assert!(h.clear_flag(ImageHeader::FLAG_HASH_TREE));
    assert!(!h.clear_flag(ImageHeader::FLAG_HASH_TREE));
    assert_eq!(h.flags(), 0x01);
}

#[test]
fn header_metainfo_and_signature() {
    let mut h = ImageHeader::new();
    let doc = b"image-type = \"rootfs\"\n";
    assert_eq!(h.set_metainfo_bytes(doc, None), Err(Error::BadMetainfo));
    assert!(!h.has_metainfo());
    h.set_metainfo_bytes(doc, Some(meta("rootfs", "dev", None, "abcdef0123456789"))).unwrap();
    assert!(h.has_metainfo());
    assert_eq!(h.metainfo_len(), doc.len());
    assert_eq!(h.metainfo_bytes(), doc.to_vec());
    assert_eq!(h.metainfo().image_type(), "rootfs");
    assert_eq!(h.metainfo().verity_tag(), "abcdef01");
    assert!(!h.has_signature());
    assert_eq!(h.set_signature(&[1u8; 10]), Err(Error::BadSignatureLength));
    h.set_signature(&[7u8; 64]).unwrap();
    assert!(h.has_signature());
    assert_eq!(h.signature(), vec![7u8; 64]);
    h.clear_signature().unwrap();
    assert!(!h.has_signature());
    assert_eq!(h.signature(), vec![0u8; 64]);
}

#[test]
fn header_signature_verifies_with_devkeys() {
    let keys: KeyPair = devkeys().unwrap();
    let mut h = ImageHeader::new();
    let doc = b"channel = \"dev\"\n";
    h.set_metainfo_bytes(doc, Some(meta("rootfs", "dev", None, "00"))).unwrap();
    let sig = keys.sign(doc);
    h.set_signature(sig.to_bytes()).unwrap();
    assert!(h.verify_signature(keys.public_key()));
    let mut other = h.signature();
    other[0] ^= 1;
    h.set_signature(&other).unwrap();
    assert!(!h.verify_signature(keys.public_key()));
}

#[test]
fn header_from_slice() {
    let mut bytes = vec![0u8; 4096];
    let h = ImageHeader::from_slice(&bytes, None).unwrap();
    assert!(!h.is_magic_valid());
    assert!(!h.has_metainfo());
    bytes[0..4].copy_from_slice(b"SGOS");
    bytes[7] = 3;
    bytes[8..11].copy_from_slice(b"a=1");
    assert!(matches!(ImageHeader::from_slice(&bytes, None), Err(Error::BadMetainfo)));
    let h = ImageHeader::from_slice(&bytes, Some(meta("realmfs", "dev", Some("main"), "ff"))).unwrap();
    assert!(h.has_metainfo());
    assert_eq!(h.metainfo_bytes(), b"a=1".to_vec());
    assert_eq!(h.metainfo().realmfs_name(), Some("main"));
}

#[test]
fn header_sector_of_device() {
    assert_eq!(ImageHeader::header_sector(8), Ok(0));
    assert_eq!(ImageHeader::header_sector(1000), Ok(992));
    assert_eq!(ImageHeader::header_sector(7), Err(Error::DeviceTooShort));
}

#[test]
fn header_staleness() {
    let mut h = ImageHeader::new();
    assert!(h.is_stale(100));
    assert!(!h.is_stale(100));
    assert!(h.is_stale(101));
    let mut other = ImageHeader::new();
    other.set_status(3);
    assert!(h.needs_reload(102));
    assert!(h.needs_reload(102));
    h.reload_from(other, 102);
    assert_eq!(h.status(), 3);
    assert!(!h.needs_reload(102));
    assert!(!h.is_stale(102));
    // a failed reread records nothing: the reload is still needed
    assert!(h.needs_reload(103));
    assert!(!h.reload_with(103, None));
    assert!(h.needs_reload(103));
    let mut fresh = ImageHeader::new();
    fresh.set_status(4);
    assert!(h.reload_with(103, Some(fresh)));
    assert_eq!(h.status(), 4);
    assert!(!h.needs_reload(103));
}

#[test]
fn header_block_metainfo_len() {
    let h = ImageHeader::new();
    let block = h.bytes();
    let mut no_magic = block.clone();
    no_magic[0] = b'X';
    assert_eq!(ImageHeader::block_metainfo_len(&no_magic), Ok(None));
    assert_eq!(ImageHeader::block_metainfo_len(&block), Err(Error::BadMetainfo));
    let mut good = block.clone();
    good[0..4].copy_from_slice(b"SGOS");
    good[6] = 0;
    good[7] = 12;
    assert_eq!(ImageHeader::block_metainfo_len(&good), Ok(Some(12)));
    let mut empty = good.clone();
    empty[7] = 0;
    assert_eq!(ImageHeader::block_metainfo_len(&empty), Err(Error::BadMetainfo));
    let mut long = good.clone();
    long[6] = 0x0f;
    long[7] = 0xb8;
    assert_eq!(ImageHeader::block_metainfo_len(&long), Err(Error::BadMetainfo));
}

#[test]
fn verity_device_names() {
    assert_eq!(Verity::device_name(&meta("rootfs", "dev", None, "abcdef0123")), "rootfs");
    assert_eq!(
        Verity::device_name(&meta("realmfs", "dev", Some("main"), "abcdef0123")),
        "verity-realmfs-main-abcdef01"
    );
    assert_eq!(
        Verity::device_name(&meta("realmfs", "dev", None, "abc")),
        "verity-realmfs-unknown-abc"
    );
    assert_eq!(Verity::device_name(&meta("extra", "dev", None, "abc")), "verity-extra");
}
