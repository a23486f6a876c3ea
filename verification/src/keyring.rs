//! The keyring: named key pairs kept in a file encrypted with a
//! passphrase, and loaded into the kernel key store at boot.
//!
//! The file holds a 32 byte salt, a 24 byte nonce, then the keyring
//! document sealed with a key derived from the passphrase and the salt.
use vstd::prelude::*;

use sodiumoxide::crypto::pwhash;
use sodiumoxide::crypto::secretbox;
use sodiumoxide::randombytes;

use crate::error::Error;
use crate::keys::spec_to_hex;
use crate::strmap::{key, StrMap};

verus! {

/// Length of the salt at the start of a keyring file.
pub const SALT_LEN: usize = 32;

/// Length of the nonce after the salt.
pub const NONCE_LEN: usize = 24;

/// Length of a signing key seed.
pub const SEED_LEN: usize = 32;

/// Name of the key pair used to seal user RealmFS images.
pub const USER_KEY_NAME: &'static str = "realmfs-user";

/// The key sodiumoxide's `pwhash::derive_key` derives from a passphrase
/// and a salt with the interactive limits.
pub uninterp spec fn scrypt_key(passphrase: Seq<u8>, salt: Seq<u8>) -> Seq<u8>;

/// What sodiumoxide's `secretbox::seal` makes of a message.
pub uninterp spec fn secretbox_sealed(m: Seq<u8>, nonce: Seq<u8>, key: Seq<u8>) -> Seq<u8>;

/// What sodiumoxide's `secretbox::open` gives for a ciphertext: the
/// message, or nothing when the ciphertext does not verify.
pub uninterp spec fn secretbox_opened(c: Seq<u8>, nonce: Seq<u8>, key: Seq<u8>) -> Option<Seq<u8>>;

/// sodiumoxide's `pwhash::derive_key` with the interactive limits: a 32
/// byte key, or nothing when libsodium fails (which depends on the memory
/// available).
#[verifier::external_body]
fn derive_key(passphrase: &[u8], salt: &[u8]) -> (r: Option<Vec<u8>>)
    requires
        salt@.len() == SALT_LEN,
    ensures
        r matches Some(k) ==> k@ == scrypt_key(passphrase@, salt@) && k@.len() == 32,
{
    let salt = pwhash::Salt::from_slice(salt).unwrap();
    let mut keybuf = [0u8; secretbox::KEYBYTES];
    match pwhash::derive_key(&mut keybuf, passphrase, &salt, pwhash::OPSLIMIT_INTERACTIVE, pwhash::MEMLIMIT_INTERACTIVE) {
        Ok(k) => Some(k.to_vec()),
        Err(_) => None,
    }
}

/// sodiumoxide's `secretbox::seal`: the sealed message, which `open`
/// gives back with the same nonce and key.
#[verifier::external_body]
fn seal(m: &[u8], nonce: &[u8], key: &[u8]) -> (r: Vec<u8>)
    requires
        nonce@.len() == NONCE_LEN,
        key@.len() == 32,
    ensures
        r@ == secretbox_sealed(m@, nonce@, key@),
        secretbox_opened(r@, nonce@, key@) == Some(m@),
{
    let n = secretbox::Nonce::from_slice(nonce).unwrap();
    let k = secretbox::Key::from_slice(key).unwrap();
    secretbox::seal(m, &n, &k)
}

/// sodiumoxide's `secretbox::open`: the message, or nothing when the
/// ciphertext does not verify.
#[verifier::external_body]
fn open(c: &[u8], nonce: &[u8], key: &[u8]) -> (r: Option<Vec<u8>>)
    requires
        nonce@.len() == NONCE_LEN,
        key@.len() == 32,
    ensures
        match r {
            Some(m) => secretbox_opened(c@, nonce@, key@) == Some(m@),
            None => secretbox_opened(c@, nonce@, key@) is None,
        },
{
    let n = secretbox::Nonce::from_slice(nonce).unwrap();
    let k = secretbox::Key::from_slice(key).unwrap();
    secretbox::open(c, &n, &k).ok()
}

/// sodiumoxide's `randombytes::randombytes`: `n` random bytes. What they
/// are depends on chance; only their number is stated.
#[verifier::external_body]
fn random_bytes(n: usize) -> (r: Vec<u8>)
    ensures
        r@.len() == n,
{
    randombytes::randombytes(n)
}

/// The `hex` crate's `encode`: two lower-case hexadecimal digits per byte.
#[verifier::external_body]
fn hex_encode(b: &[u8]) -> (r: String)
    ensures
        r@ == spec_to_hex(b@),
{
    hex::encode(b)
}

/// `n` random bytes in lower-case hexadecimal, such as the salt of a
/// sealed image.
pub fn random_hex(n: usize) -> (r: String)
    ensures
        r@.len() == 2 * n,
{
    let b = random_bytes(n);
    hex_encode(b.as_slice())
}

/// The content of a keyring file sealing `m` with salt `salt`, nonce
/// `nonce` and key `key`.
pub open spec fn spec_keyring_file(salt: Seq<u8>, nonce: Seq<u8>, m: Seq<u8>, key: Seq<u8>) -> Seq<u8> {
    salt + nonce + secretbox_sealed(m, nonce, key)
}

/// What opening keyring file `f` with a passphrase whose derived key is
/// `key(salt)` gives.
pub open spec fn spec_open_keyring_file(f: Seq<u8>, passphrase: Seq<u8>) -> Option<Seq<u8>> {
    if f.len() < SALT_LEN + NONCE_LEN {
        None
    } else {
        secretbox_opened(
            f.skip((SALT_LEN + NONCE_LEN) as int),
            f.subrange(SALT_LEN as int, (SALT_LEN + NONCE_LEN) as int),
            scrypt_key(passphrase, f.take(SALT_LEN as int)),
        )
    }
}

/// The keyring file sealing `m` with salt `salt`, nonce `nonce` and the key
/// derived from the passphrase, or `KeyDerivation` when no key could be
/// derived (`key` is `None`).
pub fn keyring_file_with_key(m: &[u8], salt: &[u8], nonce: &[u8], key: Option<Vec<u8>>) -> (r: Result<Vec<u8>, Error>)
    requires
        nonce@.len() == NONCE_LEN,
        key matches Some(k) ==> k@.len() == 32,
    ensures
        match key {
            Some(k) => r matches Ok(f) && f@ == spec_keyring_file(salt@, nonce@, m@, k@),
            None => r == Err::<Vec<u8>, Error>(Error::KeyDerivation),
        },
{
    let key = match key {
        Some(k) => k,
        None => return Err(Error::KeyDerivation),
    };
    let sealed = seal(m, nonce, key.as_slice());
    let mut out: Vec<u8> = Vec::new();
    append_bytes(&mut out, salt);
    append_bytes(&mut out, nonce);
    append_bytes(&mut out, sealed.as_slice());
    Ok(out)
}

/// Seals the keyring document `m` with `passphrase`, the given salt and nonce.
pub fn seal_keyring_bytes(m: &[u8], passphrase: &str, salt: &[u8], nonce: &[u8]) -> (r: Result<Vec<u8>, Error>)
    requires
        salt@.len() == SALT_LEN,
        nonce@.len() == NONCE_LEN,
    ensures
        r matches Ok(f) ==> f@ == spec_keyring_file(salt@, nonce@, m@, scrypt_key(vstd::utf8::encode_utf8(passphrase@), salt@)),
        r matches Err(e) ==> e == Error::KeyDerivation,
{
    let key = derive_key(passphrase.as_bytes(), salt);
    keyring_file_with_key(m, salt, nonce, key)
}

/// Seals the keyring document `m` with `passphrase`, a random salt and a
/// random nonce. It is refused, with `KeyDerivation`, only when libsodium
/// cannot derive the key, which depends on the memory available.
pub fn seal_keyring(m: &[u8], passphrase: &str) -> (r: Result<Vec<u8>, Error>)
    ensures
        r matches Ok(f) ==> f@.len() >= SALT_LEN + NONCE_LEN && f@ == spec_keyring_file(
            f@.take(SALT_LEN as int),
            f@.subrange(SALT_LEN as int, (SALT_LEN + NONCE_LEN) as int),
            m@,
            scrypt_key(vstd::utf8::encode_utf8(passphrase@), f@.take(SALT_LEN as int)),
        ),
        r matches Err(e) ==> e == Error::KeyDerivation,
{
    let salt = random_bytes(SALT_LEN);
    let nonce = random_bytes(NONCE_LEN);
    let r = seal_keyring_bytes(m, passphrase, salt.as_slice(), nonce.as_slice());
    proof {
        if let Ok(f) = &r {
            assert(f@.take(SALT_LEN as int) =~= salt@);
            assert(f@.subrange(SALT_LEN as int, (SALT_LEN + NONCE_LEN) as int) =~= nonce@);
        }
    }
    r
}

/// Opens the keyring file `f` with the key derived from the passphrase and
/// the file's salt: `KeyDerivation` when no key could be derived (`key` is
/// `None`), otherwise the document that the sealed content opens to, or
/// `DecryptFailed` when it does not verify.
pub fn open_keyring_with_key(f: &[u8], key: Option<Vec<u8>>) -> (r: Result<Vec<u8>, Error>)
    requires
        f@.len() >= SALT_LEN + NONCE_LEN,
        key matches Some(k) ==> k@.len() == 32,
    ensures
        match key {
            None => r == Err::<Vec<u8>, Error>(Error::KeyDerivation),
            Some(k) => match secretbox_opened(
                f@.skip((SALT_LEN + NONCE_LEN) as int),
                f@.subrange(SALT_LEN as int, (SALT_LEN + NONCE_LEN) as int),
                k@,
            ) {
                Some(m) => r matches Ok(v) && v@ == m,
                None => r == Err::<Vec<u8>, Error>(Error::DecryptFailed),
            },
        },
{
    let key = match key {
        Some(k) => k,
        None => return Err(Error::KeyDerivation),
    };
    let nonce = slice_range(f, SALT_LEN, SALT_LEN + NONCE_LEN);
    let data = slice_range(f, SALT_LEN + NONCE_LEN, f.len());
    assert(data@ =~= f@.skip((SALT_LEN + NONCE_LEN) as int));
    match open(data.as_slice(), nonce.as_slice(), key.as_slice()) {
        Some(m) => Ok(m),
        None => Err(Error::DecryptFailed),
    }
}

/// Opens a keyring file with `passphrase`: refused when the file is too
/// short, when no key can be derived (which depends on the memory
/// available), or when the content does not verify.
pub fn open_keyring_bytes(f: &[u8], passphrase: &str) -> (r: Result<Vec<u8>, Error>)
    ensures
        f@.len() < SALT_LEN + NONCE_LEN <==> r == Err::<Vec<u8>, Error>(Error::BadKeyringFile),
        r matches Ok(m) ==> spec_open_keyring_file(f@, vstd::utf8::encode_utf8(passphrase@)) == Some(m@),
        r matches Err(e) ==> e == Error::BadKeyringFile || e == Error::KeyDerivation || (e == Error::DecryptFailed
            && spec_open_keyring_file(f@, vstd::utf8::encode_utf8(passphrase@)) is None),
        f@.len() >= SALT_LEN + NONCE_LEN && r != Err::<Vec<u8>, Error>(Error::KeyDerivation) ==> match spec_open_keyring_file(
            f@,
            vstd::utf8::encode_utf8(passphrase@),
        ) {
            Some(m) => r matches Ok(v) && v@ == m,
            None => r == Err::<Vec<u8>, Error>(Error::DecryptFailed),
        },
{
    if f.len() < SALT_LEN + NONCE_LEN {
        return Err(Error::BadKeyringFile);
    }
    let salt = slice_range(f, 0, SALT_LEN);
    assert(salt@ =~= f@.take(SALT_LEN as int));
    let key = derive_key(passphrase.as_bytes(), salt.as_slice());
    open_keyring_with_key(f, key)
}

/// Law: a keyring file sealed with a passphrase opens with the same
/// passphrase to the sealed document.
pub proof fn law_keyring_roundtrip(salt: Seq<u8>, nonce: Seq<u8>, m: Seq<u8>, passphrase: Seq<u8>)
    requires
        salt.len() == SALT_LEN,
        nonce.len() == NONCE_LEN,
        secretbox_opened(
            secretbox_sealed(m, nonce, scrypt_key(passphrase, salt)),
            nonce,
            scrypt_key(passphrase, salt),
        ) == Some(m),
    ensures
        spec_open_keyring_file(spec_keyring_file(salt, nonce, m, scrypt_key(passphrase, salt)), passphrase) == Some(m),
{
    let f = spec_keyring_file(salt, nonce, m, scrypt_key(passphrase, salt));
    assert(f.take(SALT_LEN as int) =~= salt);
    assert(f.subrange(SALT_LEN as int, (SALT_LEN + NONCE_LEN) as int) =~= nonce);
    assert(f.skip((SALT_LEN + NONCE_LEN) as int) =~= secretbox_sealed(m, nonce, scrypt_key(passphrase, salt)));
}

/// `v` with the bytes of `b` appended.
fn append_bytes(v: &mut Vec<u8>, b: &[u8])
    ensures
        final(v)@ == old(v)@ + b@,
{
    let mut i: usize = 0;
    let ghost start = v@;
    while i < b.len()
        invariant
            i <= b@.len(),
            v@ == start + b@.take(i as int),
        decreases b@.len() - i,
    {
        v.push(b[i]);
        assert(b@.take(i + 1) =~= b@.take(i as int).push(b@[i as int]));
        i += 1;
    }
    assert(b@.take(b@.len() as int) =~= b@);
}

/// The bytes `s[from..to]`.
fn slice_range(s: &[u8], from: usize, to: usize) -> (r: Vec<u8>)
    requires
        from <= to <= s@.len(),
    ensures
        r@ == s@.subrange(from as int, to as int),
{
    let mut v: Vec<u8> = Vec::new();
    let mut i = from;
    while i < to
        invariant
            from <= i <= to,
            to <= s@.len(),
            v@ == s@.subrange(from as int, i as int),
        decreases to - i,
    {
        v.push(s[i]);
        assert(s@.subrange(from as int, i + 1) =~= s@.subrange(from as int, i as int).push(s@[i as int]));
        i += 1;
    }
    v
}

/// Named key pairs, each kept as the hexadecimal text of its seed.
pub struct KeyRing {
    keypairs: StrMap<String>,
}

impl View for KeyRing {
    type V = Map<Seq<char>, Seq<char>>;

    closed spec fn view(&self) -> Map<Seq<char>, Seq<char>> {
        self.keypairs@
    }
}

impl KeyRing {
    /// A keyring with one new random key pair seed, under `realmfs-user`.
    pub fn create_new() -> (r: KeyRing)
        ensures
            r@.dom() == set![USER_KEY_NAME@],
            r@[USER_KEY_NAME@].len() == 2 * SEED_LEN,
    {
        let seed = random_bytes(SEED_LEN);
        let mut keypairs: StrMap<String> = StrMap::new();
        keypairs.insert(key(USER_KEY_NAME), hex_encode(seed.as_slice()));
        assert(keypairs@.dom() =~= set![USER_KEY_NAME@]);
        KeyRing { keypairs }
    }

    /// A keyring holding the given names and seeds; a later name replaces
    /// an earlier one.
    pub fn from_pairs(pairs: Vec<(String, String)>) -> (r: KeyRing)
        ensures
            r@ == crate::strmap::pairs_map(pairs@.map_values(|p: (String, String)| (p.0@, p.1@))),
    {
        let ghost all = pairs@.map_values(|p: (String, String)| (p.0@, p.1@));
        let mut keypairs: StrMap<String> = StrMap::new();
        let mut rest = pairs;
        let mut taken: Vec<(String, String)> = Vec::new();
        let ghost n = rest@.len();
        assert(all.take(0) =~= Seq::<(Seq<char>, Seq<char>)>::empty());
        while rest.len() > 0
            invariant
                taken@.len() + rest@.len() == n,
                all.len() == n,
                keypairs@ == crate::strmap::pairs_map(all.take(taken@.len() as int)),
                rest@.map_values(|p: (String, String)| (p.0@, p.1@)) == all.skip(taken@.len() as int),
            decreases rest@.len(),
        {
            let ghost k: int = taken@.len() as int;
            let ghost before = rest@;
            let (name, seed) = rest.remove(0);
            proof {
                assert(all.skip(k)[0] == (name@, seed@));
                assert(all.take(k + 1) =~= all.take(k).push((name@, seed@)));
                assert(all.take(k + 1).drop_last() =~= all.take(k));
                assert(rest@ =~= before.skip(1));
                assert(rest@.map_values(|p: (String, String)| (p.0@, p.1@)) =~= before.map_values(
                    |p: (String, String)| (p.0@, p.1@),
                ).skip(1));
                assert(all.skip(k).skip(1) =~= all.skip(k + 1));
            }
            keypairs.insert(name, seed);
            taken.push((String::new(), String::new()));
        }
        assert(all.take(n as int) =~= all);
        KeyRing { keypairs }
    }

    /// The seed text stored under `name`, if any.
    pub fn get(&self, name: &str) -> (r: Option<&String>)
        ensures
            match r {
                Some(v) => self@.contains_key(name@) && self@[name@] == v@,
                None => !self@.contains_key(name@),
            },
    {
        self.keypairs.get(name)
    }

    /// The names and seed texts of the keyring, each once: what is added
    /// to the kernel key store, and what a keyring file records.
    pub fn entries(&self) -> (r: Vec<(String, String)>)
        ensures
            r@.len() == self@.len(),
            forall|i: int| 0 <= i < r@.len() ==> self@.contains_key((#[trigger] r@[i]).0@) && self@[r@[i].0@] == r@[i].1@,
            crate::strmap::pairs_map(r@.map_values(|p: (String, String)| (p.0@, p.1@))) == self@,
            crate::strmap::pairs_keys_unique(r@.map_values(|p: (String, String)| (p.0@, p.1@))),
    {
        let n = self.keypairs.len();
        let ghost pairs = self.keypairs.pairs();
        let mut out: Vec<(String, String)> = Vec::new();
        let mut i: usize = 0;
        while i < n
            invariant
                i <= n,
                n == self.keypairs@.len(),
                n == pairs.len(),
                pairs == self.keypairs.pairs(),
                crate::strmap::pairs_map(pairs) == self.keypairs@,
                crate::strmap::pairs_keys_unique(pairs),
                out@.len() == i,
                out@.map_values(|p: (String, String)| (p.0@, p.1@)) == pairs.take(i as int),
                forall|j: int| 0 <= j < out@.len() ==> self@.contains_key((#[trigger] out@[j]).0@) && self@[out@[j].0@] == out@[j].1@,
            decreases n - i,
        {
            let (k, v) = self.keypairs.entry(i);
            out.push((key(k.as_str()), key(v.as_str())));
            assert(out@.map_values(|p: (String, String)| (p.0@, p.1@)) =~= pairs.take(i + 1));
            i += 1;
        }
        assert(pairs.take(n as int) =~= pairs);
        out
    }
}

/// What the kernel's answer to a key read request of `size` bytes means.
#[derive(Debug, Clone, Copy, PartialEq, Eq, Structural)]
pub enum KeyReadOutcome {
    /// The key was read: its length.
    Done(usize),
    /// The buffer was too small: ask again with this many bytes.
    Retry(usize),
    /// The kernel reported a negative size.
    BadSize,
}

/// What the kernel's answer `n` to a key read request of `size` bytes
/// means: a first request (of no bytes) learns the size; a request large
/// enough is done; a smaller one is retried with one byte more than the
/// size reported.
pub fn key_read_outcome(size: usize, n: i64) -> (r: KeyReadOutcome)
    ensures
        n < 0 ==> r == KeyReadOutcome::BadSize,
        n >= 0 && size == 0 && n < usize::MAX ==> r == KeyReadOutcome::Retry((n + 1) as usize),
        n >= 0 && size == 0 && n >= usize::MAX ==> r == KeyReadOutcome::BadSize,
        n >= 0 && size > 0 && size >= n ==> r == KeyReadOutcome::Done(n as usize),
        n >= 0 && size > 0 && size < n && n < usize::MAX ==> r == KeyReadOutcome::Retry((n + 1) as usize),
        n >= 0 && size > 0 && size < n && n >= usize::MAX ==> r == KeyReadOutcome::BadSize,
{
    if n < 0 {
        return KeyReadOutcome::BadSize;
    }
    if size > 0 && (size as u128) >= (n as u128) {
        return KeyReadOutcome::Done(n as usize);
    }
    if (n as u128) >= (usize::MAX as u128) {
        return KeyReadOutcome::BadSize;
    }
    KeyReadOutcome::Retry((n as usize) + 1)
}

/// The passphrase in the key the kernel holds for cryptsetup: the bytes
/// after its last zero byte.
pub fn passphrase_bytes(buf: &[u8]) -> (r: Vec<u8>)
    ensures
        forall|i: int| 0 <= i < r@.len() ==> r@[i] != 0,
        r@.len() <= buf@.len(),
        r@ == buf@.skip(buf@.len() - r@.len()),
        r@.len() < buf@.len() ==> buf@[buf@.len() - r@.len() - 1] == 0,
{
    let mut start: usize = buf.len();
    while start > 0 && buf[start - 1] != 0
        invariant
            start <= buf@.len(),
            forall|i: int| start <= i < buf@.len() ==> buf@[i] != 0,
        decreases start,
    {
        start -= 1;
    }
    slice_range(buf, start, buf.len())
}

} // verus!
