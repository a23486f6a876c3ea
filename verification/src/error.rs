//! Errors reported by the library.
use vstd::prelude::*;

verus! {

/// The ways in which an operation of the library can be refused.
#[derive(Debug, Clone, Copy, PartialEq, Eq, Structural)]
pub enum Error {
    /// A quoted value in an os-release file lacks its closing quote.
    UnmatchedQuote,
    /// A line could not be parsed.
    BadLine,
    /// A number could not be parsed.
    BadNumber,
    /// A metainfo document could not be parsed.
    BadMetainfo,
    /// A signature has a length other than the expected one.
    BadSignatureLength,
    /// A hex encoded public key has the wrong length.
    BadKeyLength,
    /// A string is not valid hexadecimal.
    BadHex,
    /// A key pair was rejected by the signature library.
    BadKey,
    /// The system random number generator failed.
    RandomFailure,
    /// A keyring file is too short to hold its salt and nonce.
    BadKeyringFile,
    /// No key could be derived from a passphrase.
    KeyDerivation,
    /// A keyring file could not be decrypted with the passphrase.
    DecryptFailed,
    /// The kernel reported an impossible key size.
    BadKeySize,
    /// A network specification is not supported.
    BadNetwork,
    /// An address is not a valid dotted quad.
    BadAddress,
    /// No bridge of the given name is configured.
    NoSuchBridge,
    /// No address is left to allocate.
    NoFreeAddress,
    /// An octet is not in the reserved range.
    NotReserved,
    /// An address is already allocated.
    AddressInUse,
    /// A colour could not be parsed.
    BadColor,
    /// A terminal answered for another palette index than was asked.
    ColorIndex,
    /// An image is sealed.
    Sealed,
    /// A name is not a valid realm or RealmFS name.
    InvalidName,
    /// A realm of that name already exists.
    RealmExists,
    /// No realm of that name exists.
    NoSuchRealm,
    /// A running realm cannot be removed.
    RealmActive,
    /// A RealmFS activation has no writable mountpoint.
    NoWritableMountpoint,
    /// Neither the default RealmFS nor `base` exists to fork a missing RealmFS from.
    NoDefaultRealmfs,
    /// A RealmFS in use by a running realm cannot be deleted.
    RealmfsInUse,
    /// A RealmFS still activated cannot be deleted.
    RealmfsActivated,
    /// There is no default realm to start.
    NoDefaultRealm,
    /// An image cannot shrink.
    CannotShrink,
    /// An image can grow by at most 8 gigabytes at a time.
    GrowTooLarge,
    /// A block device is too short to hold a header.
    DeviceTooShort,
    /// The header has no metainfo.
    NoMetainfo,
    /// An image file has no valid header.
    BadHeader,
    /// A line of an image manifest is badly formed.
    BadManifestLine,
    /// No public key is available for the channel of an image.
    NoPublicKey,
    /// The signature of an image header does not verify.
    BadSignature,
    /// A file has a size other than the one expected.
    BadFileSize,
    /// An image type cannot be written to a partition.
    NotRootfs,
    /// An image is not a RealmFS image.
    NotRealmfs,
    /// A RealmFS image has no `realmfs-name` field.
    NoRealmfsName,
    /// An image file is shorter than its metainfo says.
    FileTooShort,
    /// An unsealed RealmFS cannot be activated in sealed mode.
    SealedMode,
    /// Setting up the devices and mounts of an activation failed.
    ActivationFailed,
    /// Unmounting or removing the devices of an activation failed.
    TeardownFailed,
}

} // verus!
