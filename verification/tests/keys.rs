use libcitadel::cmdline::CommandLine;
use libcitadel::config::OsRelease;
use libcitadel::error::Error;
use libcitadel::keyring::{
    key_read_outcome, keyring_file_with_key, open_keyring_bytes, open_keyring_with_key, passphrase_bytes, random_hex,
    seal_keyring, seal_keyring_bytes, KeyReadOutcome, KeyRing, USER_KEY_NAME,
};
use libcitadel::keys::{decode_hex, devkeys, public_key_for_channel, KeyPair, PublicKey, DEVKEYS_HEX};

const DEV_PUBKEY: &str = "6b652764c62a1de35e7e37af2b743e9a5b82cee2211cf3091d2514441b417f5f";

#[test]
fn hex_decoding() {
    assert_eq!(decode_hex("00ff10").unwrap(), vec![0u8, 255, 16]);
    assert_eq!(decode_hex("ABcd").unwrap(), vec![0xabu8, 0xcd]);
    assert_eq!(decode_hex("").unwrap(), Vec::<u8>::new());
    assert!(matches!(decode_hex("abc"), Err(Error::BadHex)));
    assert!(matches!(decode_hex("zz"), Err(Error::BadHex)));
}

#[test]
fn public_key_hex_roundtrip() {
    let k = PublicKey::from_hex(DEV_PUBKEY).unwrap();
    assert_eq!(k.to_hex(), DEV_PUBKEY);
    assert!(matches!(PublicKey::from_hex("abcd"), Err(Error::BadKeyLength)));
    assert!(matches!(PublicKey::from_hex("xyz"), Err(Error::BadHex)));
}

#[test]
fn devkeys_public_key() {
    let keys = devkeys().unwrap();
    assert_eq!(keys.public_key().to_hex(), DEV_PUBKEY);
}

#[test]
fn sign_and_verify() {
    let keys = devkeys().unwrap();
    let sig = keys.sign(b"hello");
    assert_eq!(sig.to_bytes().len(), 64);
    assert!(keys.verify(b"hello", sig.to_bytes()));
    assert!(!keys.verify(b"hellp", sig.to_bytes()));
    assert!(keys.public_key().verify(b"hello", sig.to_bytes()));
    assert!(!keys.public_key().verify(b"hello", &sig.to_bytes()[..63]));
}

#[test]
fn generated_keypair_roundtrip() {
    let keys = KeyPair::generate().unwrap();
    let again = KeyPair::from_hex(&keys.private_key_hex()).unwrap();
    assert_eq!(again.public_key().to_hex(), keys.public_key().to_hex());
    let sig = keys.sign(b"data");
    assert!(again.verify(b"data", sig.to_bytes()));
    assert!(!devkeys().unwrap().verify(b"data", sig.to_bytes()));
}

#[test]
fn bad_keypair_documents() {
    assert!(matches!(KeyPair::from_hex("0011"), Err(Error::BadKey)));
    assert!(matches!(KeyPair::from_hex("0g"), Err(Error::BadHex)));
    assert!(matches!(KeyPair::from_bytes(vec![1, 2, 3]), Err(Error::BadKey)));
}

#[test]
fn key_for_channel() {
    let none = OsRelease::load_file("").unwrap();
    let cl = CommandLine::new();
    let dev = public_key_for_channel("dev", &none, &cl).unwrap().unwrap();
    assert_eq!(dev.to_hex(), DEV_PUBKEY);
    assert!(public_key_for_channel("stable", &none, &cl).unwrap().is_none());

    let osr = OsRelease::load_file(&format!("CITADEL_CHANNEL=stable\nCITADEL_IMAGE_PUBKEY={}\n", "11".repeat(32))).unwrap();
    let k = public_key_for_channel("stable", &osr, &cl).unwrap().unwrap();
    assert_eq!(k.to_hex(), "11".repeat(32));
    assert!(public_key_for_channel("other", &osr, &cl).unwrap().is_none());

    let cl2 = CommandLine::parse(&format!("citadel.channel=beta:{}", "22".repeat(32)));
    let k = public_key_for_channel("beta", &none, &cl2).unwrap().unwrap();
    assert_eq!(k.to_hex(), "22".repeat(32));

    let bad = OsRelease::load_file("CITADEL_CHANNEL=stable\nCITADEL_IMAGE_PUBKEY=1234\n").unwrap();
    assert!(matches!(public_key_for_channel("stable", &bad, &cl), Err(Error::BadKeyLength)));
}

#[test]
fn keyring_seal_open_roundtrip() {
    let doc = b"[keypairs]\nrealmfs-user = \"00\"\n";
    let sealed = seal_keyring(doc, "secret").unwrap();
    assert_eq!(open_keyring_bytes(&sealed, "secret").unwrap(), doc.to_vec());
    assert!(matches!(open_keyring_bytes(&sealed, "wrong"), Err(Error::DecryptFailed)));
    assert!(matches!(open_keyring_bytes(&sealed[..10], "secret"), Err(Error::BadKeyringFile)));
}

#[test]
fn keyring_sealed_layout() {
    let salt = [3u8; 32];
    let nonce = [5u8; 24];
    let f = seal_keyring_bytes(b"abc", "pw", &salt, &nonce).unwrap();
    assert_eq!(&f[..32], &salt[..]);
    assert_eq!(&f[32..56], &nonce[..]);
    assert_eq!(f.len(), 56 + 3 + 16);
    assert_eq!(open_keyring_bytes(&f, "pw").unwrap(), b"abc".to_vec());
}

#[test]
fn keyring_entries() {
    let kr = KeyRing::from_pairs(vec![
        ("a".to_string(), "01".to_string()),
        ("b".to_string(), "02".to_string()),
        ("a".to_string(), "03".to_string()),
    ]);
    assert_eq!(kr.get("a").map(|s| s.as_str()), Some("03"));
    assert_eq!(kr.get("b").map(|s| s.as_str()), Some("02"));
    assert!(kr.get("c").is_none());
    let mut e = kr.entries();
    e.sort();
    assert_eq!(e, vec![("a".to_string(), "03".to_string()), ("b".to_string(), "02".to_string())]);

    let fresh = KeyRing::create_new();
    let seed = fresh.get(USER_KEY_NAME).unwrap();
    assert_eq!(seed.len(), 64);
    assert!(seed.chars().all(|c| c.is_ascii_hexdigit()));
    assert_eq!(fresh.entries().len(), 1);
}

#[test]
fn random_hex_lengths() {
    assert_eq!(random_hex(0), "");
    let a = random_hex(16);
    assert_eq!(a.len(), 32);
    assert!(a.chars().all(|c| c.is_ascii_hexdigit() && !c.is_ascii_uppercase()));
}

#[test]
fn kernel_key_read_steps() {
    assert_eq!(key_read_outcome(0, 10), KeyReadOutcome::Retry(11));
    assert_eq!(key_read_outcome(11, 10), KeyReadOutcome::Done(10));
    assert_eq!(key_read_outcome(11, 10), KeyReadOutcome::Done(10));
    assert_eq!(key_read_outcome(5, 10), KeyReadOutcome::Retry(11));
    assert_eq!(key_read_outcome(5, -1), KeyReadOutcome::BadSize);
}

#[test]
fn cryptsetup_passphrase() {
    assert_eq!(passphrase_bytes(b"abc\0pass"), b"pass".to_vec());
    assert_eq!(passphrase_bytes(b"plain"), b"plain".to_vec());
    assert_eq!(passphrase_bytes(b"x\0"), Vec::<u8>::new());
}

#[test]
fn keypair_from_generated_outcomes() {
    assert!(matches!(KeyPair::from_generated(None), Err(Error::RandomFailure)));
    assert!(matches!(KeyPair::from_generated(Some(vec![1, 2, 3])), Err(Error::BadKey)));
    let doc = decode_hex(DEVKEYS_HEX).unwrap();
    let pair = KeyPair::from_generated(Some(doc)).unwrap();
    assert_eq!(pair.private_key_hex(), DEVKEYS_HEX);
    assert_eq!(pair.public_key().to_hex(), DEV_PUBKEY);
}

#[test]
fn keypair_generate_gives_usable_pair() {
    let pair = KeyPair::generate().unwrap();
    let sig = pair.sign(b"data");
    assert!(pair.public_key().verify(b"data", sig.to_bytes()));
    assert!(!pair.public_key().verify(b"other", sig.to_bytes()));
}

#[test]
fn keyring_file_with_key_outcomes() {
    let salt = [7u8; 32];
    let nonce = [9u8; 24];
    assert!(matches!(keyring_file_with_key(b"abc", &salt, &nonce, None), Err(Error::KeyDerivation)));
    let f = keyring_file_with_key(b"abc", &salt, &nonce, Some(vec![1u8; 32])).unwrap();
    assert_eq!(&f[..32], &salt[..]);
    assert_eq!(&f[32..56], &nonce[..]);
    assert_eq!(f.len(), 56 + 3 + 16);
    let g = seal_keyring_bytes(b"abc", "pw", &salt, &nonce).unwrap();
    assert_ne!(f, g);
}

#[test]
fn keyring_open_with_key_outcomes() {
    let salt = [7u8; 32];
    let nonce = [9u8; 24];
    let key = vec![1u8; 32];
    let f = keyring_file_with_key(b"abc", &salt, &nonce, Some(key.clone())).unwrap();
    assert_eq!(open_keyring_with_key(&f, None), Err(Error::KeyDerivation));
    assert_eq!(open_keyring_with_key(&f, Some(key)).unwrap(), b"abc".to_vec());
    assert_eq!(open_keyring_with_key(&f, Some(vec![2u8; 32])), Err(Error::DecryptFailed));
}
