//! Keys for signing and verifying signatures: a small layer over ring's
//! Ed25519, with keys stored as hexadecimal text.
use vstd::prelude::*;

use ring::rand::SystemRandom;
use ring::signature::{Ed25519KeyPair, KeyPair as RingKeyPair, UnparsedPublicKey, ED25519};
use rustc_serialize::hex::{FromHex, FromHexError, ToHex};

use crate::cmdline::{spec_channel_name, spec_channel_pubkey, CommandLine, VarMap};
use crate::config::OsRelease;
use crate::error::Error;
use crate::text::{hex_char, hex_digit_value, is_hex_digit, lemma_hex_char, str_eq};

verus! {

/// Length of an Ed25519 public key.
pub const ED25519_PUBLIC_KEY_LEN: usize = 32;

/// Length of an Ed25519 signature.
pub const ED25519_SIGNATURE_LEN: usize = 64;

// ---------------------------------------------------------------------------
// Hexadecimal text
// ---------------------------------------------------------------------------

/// The characters that hexadecimal text may hold between digits.
pub open spec fn is_hex_space(c: char) -> bool {
    c == ' ' || c == '\r' || c == '\n' || c == '\t'
}

/// The characters of hexadecimal text other than spaces, tabs and line ends.
pub open spec fn hex_text_digits(s: Seq<char>) -> Seq<char> {
    s.filter(|c: char| !is_hex_space(c))
}

/// The bytes written by hexadecimal text: spaces, tabs and line ends are
/// skipped, every other character must be a hexadecimal digit (either
/// case), and the digits, two per byte, must be even in number.
pub open spec fn spec_from_hex(s: Seq<char>) -> Option<Seq<u8>> {
    let d = hex_text_digits(s);
    if (forall|i: int| 0 <= i < d.len() ==> is_hex_digit(#[trigger] d[i])) && d.len() % 2 == 0 {
        Some(
            Seq::new(
                d.len() / 2,
                |i: int| (hex_digit_value(d[2 * i]) * 16 + hex_digit_value(d[2 * i + 1])) as u8,
            ),
        )
    } else {
        None
    }
}

/// Lower-case hexadecimal text of bytes, two digits per byte.
pub open spec fn spec_to_hex(b: Seq<u8>) -> Seq<char> {
    Seq::new(
        b.len() * 2,
        |i: int|
            if i % 2 == 0 {
                hex_char((b[i / 2] / 16) as nat)
            } else {
                hex_char((b[i / 2] % 16) as nat)
            },
    )
}

proof fn lemma_digits_of_plain(s: Seq<char>)
    requires
        forall|i: int| 0 <= i < s.len() ==> !is_hex_space(#[trigger] s[i]),
    ensures
        hex_text_digits(s) == s,
    decreases s.len(),
{
    reveal(Seq::filter);
    if s.len() > 0 {
        lemma_digits_of_plain(s.drop_last());
        assert(s.drop_last().push(s.last()) =~= s);
    }
}

/// Law: hexadecimal text made of bytes reads back as those bytes.
pub proof fn law_hex_roundtrip(b: Seq<u8>)
    ensures
        spec_from_hex(spec_to_hex(b)) == Some(b),
{
    let t = spec_to_hex(b);
    assert forall|i: int| 0 <= i < t.len() implies !is_hex_space(#[trigger] t[i]) && is_hex_digit(t[i]) by {
        if i % 2 == 0 {
            lemma_hex_char((b[i / 2] / 16) as nat);
        } else {
            lemma_hex_char((b[i / 2] % 16) as nat);
        }
    }
    lemma_digits_of_plain(t);
    let r = Seq::new(
        t.len() / 2,
        |i: int| (hex_digit_value(t[2 * i]) * 16 + hex_digit_value(t[2 * i + 1])) as u8,
    );
    assert forall|i: int| 0 <= i < b.len() implies r[i] == b[i] by {
        assert((2 * i) / 2 == i && (2 * i) % 2 == 0);
        assert((2 * i + 1) / 2 == i && (2 * i + 1) % 2 == 1);
        lemma_hex_char((b[i] / 16) as nat);
        lemma_hex_char((b[i] % 16) as nat);
        assert(t[2 * i] == hex_char((b[i] / 16) as nat));
        assert(t[2 * i + 1] == hex_char((b[i] % 16) as nat));
    }
    assert(r =~= b);
}

#[verifier::external_type_specification]
#[verifier::external_body]
pub struct ExFromHexError(FromHexError);

/// `rustc_serialize::hex::FromHex::from_hex` on a string: the bytes the
/// text writes, or an error when a character is neither a hexadecimal
/// digit nor white space, or the digits are odd in number.
#[verifier::external_body]
fn from_hex_bytes(s: &str) -> (r: Result<Vec<u8>, FromHexError>)
    ensures
        match r {
            Ok(v) => spec_from_hex(s@) == Some(v@),
            Err(_) => spec_from_hex(s@) is None,
        },
{
    s.from_hex()
}

/// `rustc_serialize::hex::ToHex::to_hex` on bytes: two lower-case
/// hexadecimal digits per byte.
#[verifier::external_body]
fn to_hex_string(b: &[u8]) -> (r: String)
    ensures
        r@ == spec_to_hex(b@),
{
    b.to_hex()
}

/// Decodes hexadecimal text.
pub fn decode_hex(s: &str) -> (r: Result<Vec<u8>, Error>)
    ensures
        match spec_from_hex(s@) {
            Some(b) => r matches Ok(v) && v@ == b,
            None => r == Err::<Vec<u8>, Error>(Error::BadHex),
        },
{
    match from_hex_bytes(s) {
        Ok(v) => Ok(v),
        Err(_) => Err(Error::BadHex),
    }
}

// ---------------------------------------------------------------------------
// Ed25519
// ---------------------------------------------------------------------------

/// Whether ring's `Ed25519KeyPair::from_pkcs8` accepts a PKCS#8 document.
pub uninterp spec fn ed25519_pkcs8_accepted(pkcs8: Seq<u8>) -> bool;

/// The public key of an accepted PKCS#8 document.
pub uninterp spec fn ed25519_public_key_of(pkcs8: Seq<u8>) -> Seq<u8>;

/// The signature of `msg` made with the key pair of a PKCS#8 document.
pub uninterp spec fn ed25519_sign(pkcs8: Seq<u8>, msg: Seq<u8>) -> Seq<u8>;

/// Whether `signature` is a valid Ed25519 signature of `msg` by `public_key`.
pub uninterp spec fn ed25519_verify(public_key: Seq<u8>, msg: Seq<u8>, signature: Seq<u8>) -> bool;

/// ring's `Ed25519KeyPair::from_pkcs8`, reduced to whether it accepts the
/// document.
#[verifier::external_body]
fn pkcs8_accepted(pkcs8: &[u8]) -> (r: bool)
    ensures
        r == ed25519_pkcs8_accepted(pkcs8@),
{
    Ed25519KeyPair::from_pkcs8(pkcs8).is_ok()
}

/// ring's `KeyPair::public_key` of the key pair of an accepted PKCS#8
/// document: the 32 bytes of its public key.
#[verifier::external_body]
fn pkcs8_public_key(pkcs8: &[u8]) -> (r: Vec<u8>)
    requires
        ed25519_pkcs8_accepted(pkcs8@),
    ensures
        r@ == ed25519_public_key_of(pkcs8@),
        r@.len() == ED25519_PUBLIC_KEY_LEN,
{
    let pair = Ed25519KeyPair::from_pkcs8(pkcs8).expect("accepted document");
    pair.public_key().as_ref().to_vec()
}

/// ring's `Ed25519KeyPair::sign` with the key pair of an accepted PKCS#8
/// document: a 64 byte signature, which verifies against the pair's
/// public key.
#[verifier::external_body]
fn pkcs8_sign(pkcs8: &[u8], msg: &[u8]) -> (r: Vec<u8>)
    requires
        ed25519_pkcs8_accepted(pkcs8@),
    ensures
        r@ == ed25519_sign(pkcs8@, msg@),
        r@.len() == ED25519_SIGNATURE_LEN,
        ed25519_verify(ed25519_public_key_of(pkcs8@), msg@, r@),
{
    let pair = Ed25519KeyPair::from_pkcs8(pkcs8).expect("accepted document");
    pair.sign(msg).as_ref().to_vec()
}

/// ring's `UnparsedPublicKey::verify` for Ed25519: whether `signature` is a
/// valid signature of `msg`; never for a key other than 32 bytes long or a
/// signature other than 64 bytes long.
#[verifier::external_body]
fn ed25519_verify_bytes(public_key: &[u8], msg: &[u8], signature: &[u8]) -> (r: bool)
    ensures
        r == ed25519_verify(public_key@, msg@, signature@),
        public_key@.len() != ED25519_PUBLIC_KEY_LEN ==> !r,
        signature@.len() != ED25519_SIGNATURE_LEN ==> !r,
{
    UnparsedPublicKey::new(&ED25519, public_key).verify(msg, signature).is_ok()
}

/// ring's `Ed25519KeyPair::generate_pkcs8` with the system random number
/// generator: a new PKCS#8 v2 document holding a random seed and the public
/// key derived from it, which `Ed25519KeyPair::from_pkcs8` accepts; or
/// nothing when the generator fails. Which document comes out depends on
/// chance, and so does a failure of the generator: neither is stated.
#[verifier::external_body]
fn generate_pkcs8() -> (r: Option<Vec<u8>>)
    ensures
        r matches Some(d) ==> ed25519_pkcs8_accepted(d@),
{
    let rng = SystemRandom::new();
    match Ed25519KeyPair::generate_pkcs8(&rng) {
        Ok(doc) => Some(doc.as_ref().to_vec()),
        Err(_) => None,
    }
}

/// An Ed25519 public key.
#[derive(Clone, Copy, Debug)]
pub struct PublicKey([u8; 32]);

impl View for PublicKey {
    type V = Seq<u8>;

    closed spec fn view(&self) -> Seq<u8> {
        self.0@
    }
}

impl PublicKey {
    /// The key written in hexadecimal.
    pub fn from_hex(hex: &str) -> (r: Result<PublicKey, Error>)
        ensures
            match spec_from_hex(hex@) {
                None => r == Err::<PublicKey, Error>(Error::BadHex),
                Some(b) => if b.len() == ED25519_PUBLIC_KEY_LEN {
                    r matches Ok(k) && k@ == b
                } else {
                    r == Err::<PublicKey, Error>(Error::BadKeyLength)
                },
            },
    {
        let bytes = decode_hex(hex)?;
        if bytes.len() != ED25519_PUBLIC_KEY_LEN {
            return Err(Error::BadKeyLength);
        }
        Ok(PublicKey::from_bytes(bytes.as_slice()))
    }

    /// The key in lower-case hexadecimal.
    pub fn to_hex(&self) -> (r: String)
        ensures
            r@ == spec_to_hex(self@),
    {
        to_hex_string(self.0.as_slice())
    }

    /// The key with the given 32 bytes.
    pub fn from_bytes(bytes: &[u8]) -> (r: PublicKey)
        requires
            bytes@.len() == ED25519_PUBLIC_KEY_LEN,
        ensures
            r@ == bytes@,
    {
        let mut key = [0u8; 32];
        let mut i: usize = 0;
        while i < 32
            invariant
                i <= 32,
                bytes@.len() == 32,
                forall|j: int| 0 <= j < i ==> key@[j] == bytes@[j],
            decreases 32 - i,
        {
            key[i] = bytes[i];
            i += 1;
        }
        assert(key@ =~= bytes@);
        PublicKey(key)
    }

    /// Whether `signature` is a valid signature of `data` by this key.
    pub fn verify(&self, data: &[u8], signature: &[u8]) -> (r: bool)
        ensures
            r == ed25519_verify(self@, data@, signature@),
            signature@.len() != ED25519_SIGNATURE_LEN ==> !r,
    {
        ed25519_verify_bytes(self.0.as_slice(), data, signature)
    }
}

/// A pair of signing and verifying keys, kept as the PKCS#8 document that
/// holds them.
pub struct KeyPair(Vec<u8>);

impl View for KeyPair {
    type V = Seq<u8>;

    closed spec fn view(&self) -> Seq<u8> {
        self.0@
    }
}

impl KeyPair {
    #[verifier::type_invariant]
    spec fn inv(self) -> bool {
        ed25519_pkcs8_accepted(self.0@)
    }

    /// A new key pair from the system random number generator. It is
    /// refused, with `RandomFailure`, only when the generator fails.
    pub fn generate() -> (r: Result<KeyPair, Error>)
        ensures
            r matches Ok(k) ==> ed25519_pkcs8_accepted(k@),
            r matches Err(e) ==> e == Error::RandomFailure,
    {
        KeyPair::from_generated(generate_pkcs8())
    }

    /// The key pair of what the generator handed back: `RandomFailure` when
    /// it failed, else the pair of the document (`BadKey` when the document
    /// is not an accepted PKCS#8 document).
    pub fn from_generated(doc: Option<Vec<u8>>) -> (r: Result<KeyPair, Error>)
        ensures
            match doc {
                None => r == Err::<KeyPair, Error>(Error::RandomFailure),
                Some(d) => if ed25519_pkcs8_accepted(d@) {
                    r matches Ok(k) && k@ == d@
                } else {
                    r == Err::<KeyPair, Error>(Error::BadKey)
                },
            },
    {
        match doc {
            Some(bytes) => KeyPair::from_bytes(bytes),
            None => Err(Error::RandomFailure),
        }
    }

    /// The key pair of a PKCS#8 document written in hexadecimal.
    pub fn from_hex(hex: &str) -> (r: Result<KeyPair, Error>)
        ensures
            match spec_from_hex(hex@) {
                None => r == Err::<KeyPair, Error>(Error::BadHex),
                Some(b) => if ed25519_pkcs8_accepted(b) {
                    r matches Ok(k) && k@ == b
                } else {
                    r == Err::<KeyPair, Error>(Error::BadKey)
                },
            },
    {
        let bytes = decode_hex(hex)?;
        KeyPair::from_bytes(bytes)
    }

    /// The key pair of a PKCS#8 document.
    pub fn from_bytes(bytes: Vec<u8>) -> (r: Result<KeyPair, Error>)
        ensures
            ed25519_pkcs8_accepted(bytes@) ==> (r matches Ok(k) && k@ == bytes@),
            !ed25519_pkcs8_accepted(bytes@) ==> r == Err::<KeyPair, Error>(Error::BadKey),
    {
        if pkcs8_accepted(bytes.as_slice()) {
            Ok(KeyPair(bytes))
        } else {
            Err(Error::BadKey)
        }
    }

    /// The verifying half of the pair.
    pub fn public_key(&self) -> (r: PublicKey)
        ensures
            r@ == ed25519_public_key_of(self@),
    {
        proof {
            use_type_invariant(self);
        }
        let bytes = pkcs8_public_key(self.0.as_slice());
        PublicKey::from_bytes(bytes.as_slice())
    }

    /// The PKCS#8 document in lower-case hexadecimal.
    pub fn private_key_hex(&self) -> (r: String)
        ensures
            r@ == spec_to_hex(self@),
    {
        to_hex_string(self.0.as_slice())
    }

    /// The signature of `data`.
    pub fn sign(&self, data: &[u8]) -> (r: Signature)
        ensures
            r@ == ed25519_sign(self@, data@),
            r@.len() == ED25519_SIGNATURE_LEN,
            ed25519_verify(ed25519_public_key_of(self@), data@, r@),
    {
        proof {
            use_type_invariant(self);
        }
        Signature(pkcs8_sign(self.0.as_slice(), data))
    }

    /// Whether `signature` is a valid signature of `data` by this pair.
    pub fn verify(&self, data: &[u8], signature: &[u8]) -> (r: bool)
        ensures
            r == ed25519_verify(ed25519_public_key_of(self@), data@, signature@),
    {
        self.public_key().verify(data, signature)
    }
}

/// A signature made by a key pair.
pub struct Signature(Vec<u8>);

impl View for Signature {
    type V = Seq<u8>;

    closed spec fn view(&self) -> Seq<u8> {
        self.0@
    }
}

impl Signature {
    /// The bytes of the signature.
    pub fn to_bytes(&self) -> (r: &[u8])
        ensures
            r@ == self@,
    {
        self.0.as_slice()
    }
}

/// The PKCS#8 document, in hexadecimal, of the keys of the `dev` channel.
pub const DEVKEYS_HEX: &'static str = "3053020101300506032b6570042204206ed2849c6c5168e1aebc50005ac3d4a4e84af4889e4e0189bb4c787e6ee0be49a1230321006b652764c62a1de35e7e37af2b743e9a5b82cee2211cf3091d2514441b417f5f";

/// The key pair of the `dev` channel.
pub fn devkeys() -> (r: Result<KeyPair, Error>)
    ensures
        match spec_from_hex(DEVKEYS_HEX@) {
            None => r == Err::<KeyPair, Error>(Error::BadHex),
            Some(b) => if ed25519_pkcs8_accepted(b) {
                r matches Ok(k) && k@ == b
            } else {
                r == Err::<KeyPair, Error>(Error::BadKey)
            },
        },
{
    KeyPair::from_hex(DEVKEYS_HEX)
}

/// Where the public key of a channel comes from: the `dev` channel has the
/// built-in key; otherwise the key that os-release gives for its channel,
/// then the key that the kernel command line gives for its channel.
pub enum KeySource {
    /// The built-in `dev` keys.
    Dev,
    /// Hexadecimal text of a key.
    Hex(Seq<char>),
    /// No key is known.
    Unknown,
}

/// Where the public key of `channel` comes from, given the os-release
/// channel and key and the command line channel and key.
pub open spec fn spec_key_source(
    channel: Seq<char>,
    os_channel: Option<Seq<char>>,
    os_pubkey: Option<Seq<char>>,
    cmd_channel: Option<Seq<char>>,
    cmd_pubkey: Option<Seq<char>>,
) -> KeySource {
    if channel == "dev"@ {
        KeySource::Dev
    } else if os_channel == Some(channel) && os_pubkey is Some {
        KeySource::Hex(os_pubkey->0)
    } else if cmd_channel == Some(channel) && cmd_pubkey is Some {
        KeySource::Hex(cmd_pubkey->0)
    } else {
        KeySource::Unknown
    }
}

/// The os-release value of `key`, if set.
pub open spec fn os_value(os: Map<Seq<char>, Seq<char>>, key: Seq<char>) -> Option<Seq<char>> {
    if os.contains_key(key) {
        Some(os[key])
    } else {
        None
    }
}

/// The key `public_key_for_channel` finds for `channel`, given the
/// os-release values and the command line.
pub open spec fn spec_public_key_for_channel(channel: Seq<char>, os: Map<Seq<char>, Seq<char>>, cmdline: VarMap) -> Result<Option<Seq<u8>>, Error> {
    match spec_key_source(
        channel,
        os_value(os, "CITADEL_CHANNEL"@),
        os_value(os, "CITADEL_IMAGE_PUBKEY"@),
        spec_channel_name(cmdline),
        spec_channel_pubkey(cmdline),
    ) {
        KeySource::Dev => match spec_from_hex(DEVKEYS_HEX@) {
            None => Err(Error::BadHex),
            Some(b) => if ed25519_pkcs8_accepted(b) {
                Ok(Some(ed25519_public_key_of(b)))
            } else {
                Err(Error::BadKey)
            },
        },
        KeySource::Hex(h) => match spec_from_hex(h) {
            None => Err(Error::BadHex),
            Some(b) => if b.len() == ED25519_PUBLIC_KEY_LEN {
                Ok(Some(b))
            } else {
                Err(Error::BadKeyLength)
            },
        },
        KeySource::Unknown => Ok(None),
    }
}

/// The model of a key lookup.
pub open spec fn key_result_view(r: Result<Option<PublicKey>, Error>) -> Result<Option<Seq<u8>>, Error> {
    match r {
        Ok(Some(k)) => Ok(Some(k@)),
        Ok(None) => Ok(None),
        Err(e) => Err(e),
    }
}

/// The public key for images of `channel`, if one is known.
pub fn public_key_for_channel(channel: &str, os_release: &OsRelease, cmdline: &CommandLine) -> (r: Result<Option<PublicKey>, Error>)
    ensures
        key_result_view(r) == spec_public_key_for_channel(channel@, os_release@, cmdline@),
{
    if str_eq(channel, "dev") {
        let keys = devkeys()?;
        return Ok(Some(keys.public_key()));
    }
    match os_release.citadel_channel() {
        Some(c) => if str_eq(c, channel) {
            match os_release.citadel_image_pubkey() {
                Some(hex) => {
                    let pubkey = PublicKey::from_hex(hex)?;
                    return Ok(Some(pubkey));
                },
                None => {},
            }
        },
        None => {},
    }
    match cmdline.channel_name() {
        Some(c) => if str_eq(c.as_str(), channel) {
            match cmdline.channel_pubkey() {
                Some(hex) => {
                    let pubkey = PublicKey::from_hex(hex.as_str())?;
                    return Ok(Some(pubkey));
                },
                None => {},
            }
        },
        None => {},
    }
    Ok(None)
}

} // verus!
