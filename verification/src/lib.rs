//! Decryption of chat-application image cache files (`.dat`).
//!
//! A cache file is either a legacy file, whose every byte is XORed with a
//! one-byte key, or a container: a 15-byte header, an AES-128-ECB region with
//! PKCS#7 padding, a region of plain bytes and a trailing XORed region.
//! The library works on byte buffers; reading them is left to the caller.

pub mod decrypt;
pub mod encoding;
pub mod error;
pub mod gallery;
pub mod image;
pub mod keys;
pub mod sorting;
pub mod text;
pub mod wxam;
