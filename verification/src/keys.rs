//! The keys as the configuration holds them.

use vstd::prelude::*;
use vstd::utf8::encode_utf8;

verus! {

/// The AES key that the bytes of a configured text give: of 16 or more
/// bytes the first 16.
pub open spec fn configured_key(bytes: Seq<u8>) -> Seq<u8> {
    if bytes.len() >= 16 {
        bytes.take(16)
    } else {
        bytes
    }
}

/// The AES key that the text of the configuration gives. A text of fewer
/// than 16 bytes gives a key that no container can be decrypted with.
pub fn aes_key_from_text(text: &str) -> (key: Vec<u8>)
    ensures
        key@ == configured_key(encode_utf8(text@)),
        key@.len() <= 16,
{
    let mut key = text.as_bytes_vec();
    if key.len() >= 16 {
        key.truncate(16);
    }
    key
}

/// The key to decrypt containers with: `key` where it is 16 bytes long,
/// none otherwise.
pub fn usable_aes_key(key: &[u8]) -> (usable: Option<&[u8]>)
    ensures
        key@.len() == 16 ==> usable == Some(key),
        key@.len() != 16 ==> usable is None,
{
    if key.len() == 16 {
        Some(key)
    } else {
        None
    }
}

} // verus!
