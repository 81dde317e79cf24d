//! Format detection and decryption of cache files.

pub mod aes;
pub mod error;
pub mod v3;
pub mod v4;
pub mod version;

pub use aes::AesHandler;
pub use error::{DecryptError, DecryptErrorView};
pub use v3::V3Decryptor;
pub use v4::{V4Decryptor, V4Header};
pub use version::{DatVersion, VersionDetector};

use error::outcome;
use v3::xor_bytes;
use v4::container_plaintext;
use version::version_of;
use vstd::prelude::*;

verus! {

/// The bytes of an AES key that may be absent.
pub open spec fn key_bytes(aes_key: Option<&[u8]>) -> Option<Seq<u8>> {
    match aes_key {
        Some(key) => Some(key@),
        None => None,
    }
}

/// The plaintext of a file with the contents `data` that is taken to have
/// the layout `version`. A legacy file needs no AES key; a container needs
/// one; an unknown layout is refused.
pub open spec fn plaintext_as(
    version: DatVersion,
    data: Seq<u8>,
    xor_key: u8,
    aes_key: Option<Seq<u8>>,
) -> Result<Seq<u8>, DecryptErrorView> {
    match version {
        DatVersion::V3 => Ok(xor_bytes(data, xor_key)),
        DatVersion::V4V1 | DatVersion::V4V2 => match aes_key {
            Some(key) => container_plaintext(data, xor_key, key),
            None => Err(DecryptErrorView::missing_key()),
        },
        DatVersion::Unknown => Err(DecryptErrorView::UnsupportedVersion),
    }
}

/// Whether a file of `file_len` bytes with the layout `version` can have a
/// plaintext of `plain_len` bytes: a legacy file keeps its length; a
/// container loses its header of 15 bytes and between 1 and 16 bytes of
/// padding.
pub open spec fn length_fits(version: DatVersion, file_len: int, plain_len: int) -> bool {
    match version {
        DatVersion::V3 => plain_len == file_len,
        DatVersion::V4V1 | DatVersion::V4V2 => file_len - 31 <= plain_len <= file_len - 16,
        DatVersion::Unknown => false,
    }
}

/// The plaintext of a file with the contents `data`, by the layout that its
/// signature gives.
pub open spec fn plaintext(data: Seq<u8>, xor_key: u8, aes_key: Option<Seq<u8>>) -> Result<
    Seq<u8>,
    DecryptErrorView,
> {
    plaintext_as(version_of(data), data, xor_key, aes_key)
}

/// How a file is decrypted follows from its signature: a file without one
/// is XORed whatever the AES key is; a container is refused without an AES
/// key, and with one of the wrong length whatever else it holds.
pub proof fn lemma_plaintext_by_layout(data: Seq<u8>, xor_key: u8, aes_key: Option<Seq<u8>>)
    ensures
        version_of(data) == DatVersion::V3 ==> plaintext(data, xor_key, aes_key) == Ok::<
            Seq<u8>,
            DecryptErrorView,
        >(xor_bytes(data, xor_key)),
        version_of(data) != DatVersion::V3 && aes_key is None ==> plaintext(
            data,
            xor_key,
            aes_key,
        ) == Err::<Seq<u8>, DecryptErrorView>(DecryptErrorView::missing_key()),
        version_of(data) != DatVersion::V3 && aes_key is Some && aes_key->Some_0.len() != 16
            ==> plaintext(data, xor_key, aes_key) == Err::<Seq<u8>, DecryptErrorView>(
            DecryptErrorView::key_length(),
        ),
        version_of(data) != DatVersion::V3 && aes_key is Some ==> plaintext(
            data,
            xor_key,
            aes_key,
        ) == container_plaintext(data, xor_key, aes_key->Some_0),
        plaintext(data, xor_key, aes_key) != Err::<Seq<u8>, DecryptErrorView>(
            DecryptErrorView::UnsupportedVersion,
        ),
{
    version::lemma_version_by_signature(data);
    if aes_key is Some {
        v4::lemma_container_errors(data, xor_key, aes_key->Some_0);
    }
}

/// Decrypts cache files of any layout.
pub struct DatDecryptor;

impl DatDecryptor {
    /// Detects the layout of a file from the start of its contents.
    pub fn detect_version(data: &[u8]) -> (version: DatVersion)
        ensures
            version == version_of(data@),
            version != DatVersion::Unknown,
    {
        VersionDetector::detect(data)
    }

    /// Decrypts the contents of a legacy file.
    pub fn decrypt_dat_v3(data: &[u8], xor_key: u8) -> (plain: Vec<u8>)
        ensures
            plain@ == xor_bytes(data@, xor_key),
    {
        V3Decryptor::decrypt(data, xor_key)
    }

    /// Decrypts the contents of a container with the 16-byte `aes_key`.
    pub fn decrypt_dat_v4(data: &[u8], xor_key: u8, aes_key: &[u8]) -> (result: Result<
        Vec<u8>,
        DecryptError,
    >)
        ensures
            outcome(result) == container_plaintext(data@, xor_key, aes_key@),
            result matches Ok(plain) ==> data@.len() - 31 <= plain@.len() <= data@.len() - 16,
    {
        V4Decryptor::decrypt(data, xor_key, aes_key)
    }

    /// Detects the layout of a file and decrypts its contents. A container
    /// needs `aes_key`; a legacy file ignores it.
    pub fn decrypt(data: &[u8], xor_key: u8, aes_key: Option<&[u8]>) -> (result: Result<
        Vec<u8>,
        DecryptError,
    >)
        ensures
            outcome(result) == plaintext(data@, xor_key, key_bytes(aes_key)),
            result matches Ok(plain) ==> length_fits(
                version_of(data@),
                data@.len() as int,
                plain@.len() as int,
            ),
    {
        let version = Self::detect_version(data);
        Self::decrypt_as(version, data, xor_key, aes_key)
    }

    /// Decrypts the contents of a file whose layout the caller knows.
    pub fn decrypt_as(
        version: DatVersion,
        data: &[u8],
        xor_key: u8,
        aes_key: Option<&[u8]>,
    ) -> (result: Result<Vec<u8>, DecryptError>)
        ensures
            outcome(result) == plaintext_as(version, data@, xor_key, key_bytes(aes_key)),
            result matches Ok(plain) ==> length_fits(
                version,
                data@.len() as int,
                plain@.len() as int,
            ),
    {
        match version {
            DatVersion::V3 => Ok(Self::decrypt_dat_v3(data, xor_key)),
            DatVersion::V4V1 | DatVersion::V4V2 => match aes_key {
                Some(key) => Self::decrypt_dat_v4(data, xor_key, key),
                None => Err(DecryptError::missing_key()),
            },
            DatVersion::Unknown => Err(DecryptError::UnsupportedVersion),
        }
    }
}

} // verus!
