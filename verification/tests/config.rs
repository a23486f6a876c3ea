use libcitadel::config::OsRelease;
use libcitadel::error::Error;

const SAMPLE: &str = "NAME=\"Citadel\"\nCITADEL_CHANNEL=dev\nCITADEL_IMAGE_PUBKEY='abcd'\n CITADEL_ROOTFS_VERSION = 12 \nEMPTY=\n";

#[test]
fn os_release_values() {
    let osr = OsRelease::load_file(SAMPLE).unwrap();
    assert_eq!(osr.get_value("NAME"), Some("Citadel"));
    assert_eq!(osr.citadel_channel(), Some("dev"));
    assert_eq!(osr.citadel_image_pubkey(), Some("abcd"));
    assert_eq!(osr.citadel_rootfs_version(), Some(12));
    assert_eq!(osr.get_value("CITADEL_ROOTFS_VERSION"), Some("12"));
    assert_eq!(osr.get_value("EMPTY"), Some(""));
    assert_eq!(osr.get_value("MISSING"), None);
    assert_eq!(osr.get_int_value("NAME"), None);
    assert_eq!(osr.get_int_value("MISSING"), None);
}

#[test]
fn os_release_value_with_equals_sign() {
    let osr = OsRelease::load_file("OPTS=a=b\n").unwrap();
    assert_eq!(osr.get_value("OPTS"), Some("a=b"));
}

#[test]
fn os_release_later_line_wins() {
    let osr = OsRelease::load_file("A=1\nA=2").unwrap();
    assert_eq!(osr.get_int_value("A"), Some(2));
}

#[test]
fn os_release_unmatched_quote() {
    assert!(matches!(OsRelease::load_file("A=\"oops\n"), Err(Error::UnmatchedQuote)));
    assert!(matches!(OsRelease::load_file("A='\n"), Err(Error::UnmatchedQuote)));
    assert!(matches!(OsRelease::load_file("A='x\"\n"), Err(Error::UnmatchedQuote)));
}

#[test]
fn os_release_empty_file() {
    let osr = OsRelease::load_file("").unwrap();
    assert_eq!(osr.citadel_channel(), None);
    assert_eq!(osr.citadel_rootfs_version(), None);
}
