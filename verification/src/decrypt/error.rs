//! Errors of decryption.

use crate::error::io_error_text;
use vstd::prelude::*;
use vstd::std_specs::convert::FromSpecImpl;

verus! {

/// Why a cache file could not be decrypted.
#[derive(Debug, Clone)]
pub enum DecryptError {
    /// The file could not be read, or ends before a region is complete.
    IoError(String),
    /// The contents are not a cache file.
    InvalidFormat,
    /// The AES key is missing or has the wrong length, or the decrypted
    /// region does not end in PKCS#7 padding.
    AesDecryptError(String),
    /// The layout is one that this library does not decrypt.
    UnsupportedVersion,
    /// Fewer than 15 bytes are available for the container header.
    HeaderParseError,
}

/// A `DecryptError` with its message as a sequence of characters.
pub enum DecryptErrorView {
    /// A read error with its message.
    IoError(Seq<char>),
    /// The contents are not a cache file.
    InvalidFormat,
    /// An error of the AES stage with its message.
    AesDecryptError(Seq<char>),
    /// The layout is not supported.
    UnsupportedVersion,
    /// The container header is incomplete.
    HeaderParseError,
}

impl View for DecryptError {
    type V = DecryptErrorView;

    open spec fn view(&self) -> DecryptErrorView {
        match self {
            DecryptError::IoError(message) => DecryptErrorView::IoError(message@),
            DecryptError::InvalidFormat => DecryptErrorView::InvalidFormat,
            DecryptError::AesDecryptError(message) => DecryptErrorView::AesDecryptError(message@),
            DecryptError::UnsupportedVersion => DecryptErrorView::UnsupportedVersion,
            DecryptError::HeaderParseError => DecryptErrorView::HeaderParseError,
        }
    }
}

impl DecryptErrorView {
    /// The AES key is not 16 bytes long.
    pub open spec fn key_length() -> DecryptErrorView {
        DecryptErrorView::AesDecryptError("AES 密钥必须为 16 字节"@)
    }

    /// A container was given without an AES key.
    pub open spec fn missing_key() -> DecryptErrorView {
        DecryptErrorView::AesDecryptError("v4 版本需要提供 AES 密钥"@)
    }

    /// There is nothing to take padding from.
    pub open spec fn empty_data() -> DecryptErrorView {
        DecryptErrorView::AesDecryptError("数据为空"@)
    }

    /// The last byte is no padding length: it is zero, more than a block, or
    /// more than the data.
    pub open spec fn invalid_padding() -> DecryptErrorView {
        DecryptErrorView::AesDecryptError("无效的填充"@)
    }

    /// One of the padding bytes differs from the padding length.
    pub open spec fn padding_mismatch() -> DecryptErrorView {
        DecryptErrorView::AesDecryptError("填充验证失败"@)
    }

    /// The file ends before a region is complete.
    pub open spec fn truncated() -> DecryptErrorView {
        DecryptErrorView::IoError("failed to fill whole buffer"@)
    }
}

impl DecryptError {
    /// The error for an AES key that is not 16 bytes long.
    pub fn key_length() -> (error: DecryptError)
        ensures
            error@ == DecryptErrorView::key_length(),
    {
        DecryptError::AesDecryptError(String::from_str("AES 密钥必须为 16 字节"))
    }

    /// The error for a container that was given without an AES key.
    pub fn missing_key() -> (error: DecryptError)
        ensures
            error@ == DecryptErrorView::missing_key(),
    {
        DecryptError::AesDecryptError(String::from_str("v4 版本需要提供 AES 密钥"))
    }

    /// The error for data that is too short to hold any padding.
    pub fn empty_data() -> (error: DecryptError)
        ensures
            error@ == DecryptErrorView::empty_data(),
    {
        DecryptError::AesDecryptError(String::from_str("数据为空"))
    }

    /// The error for a last byte that is no padding length.
    pub fn invalid_padding() -> (error: DecryptError)
        ensures
            error@ == DecryptErrorView::invalid_padding(),
    {
        DecryptError::AesDecryptError(String::from_str("无效的填充"))
    }

    /// The error for padding bytes that differ from the padding length.
    pub fn padding_mismatch() -> (error: DecryptError)
        ensures
            error@ == DecryptErrorView::padding_mismatch(),
    {
        DecryptError::AesDecryptError(String::from_str("填充验证失败"))
    }

    /// The error for a file that ends before a region is complete.
    pub fn truncated() -> (error: DecryptError)
        ensures
            error@ == DecryptErrorView::truncated(),
    {
        DecryptError::IoError(String::from_str("failed to fill whole buffer"))
    }
}

impl From<std::io::Error> for DecryptError {
    /// A read error with the text of `err`.
    fn from(err: std::io::Error) -> (error: DecryptError)
        ensures
            error is IoError,
    {
        DecryptError::IoError(io_error_text(&err))
    }
}

impl FromSpecImpl<std::io::Error> for DecryptError {
    open spec fn obeys_from_spec() -> bool {
        false
    }

    open spec fn from_spec(err: std::io::Error) -> DecryptError {
        arbitrary()
    }
}

/// What a decryption returned, with buffer and message as sequences.
pub open spec fn outcome(result: Result<Vec<u8>, DecryptError>) -> Result<
    Seq<u8>,
    DecryptErrorView,
> {
    match result {
        Ok(bytes) => Ok(bytes@),
        Err(error) => Err(error@),
    }
}

} // verus!
