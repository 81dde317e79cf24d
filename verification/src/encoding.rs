//! Payloads as text, for a caller that cannot take bytes.

use ::base64::engine::general_purpose::STANDARD;
use ::base64::Engine;
use vstd::prelude::*;

verus! {

/// `data` in base64 with the standard alphabet and padding, as the engine
/// `STANDARD` of the base64 crate encodes it.
pub uninterp spec fn base64_standard(data: Seq<u8>) -> Seq<char>;

/// The length of the base64 text for `len` bytes: four characters for
/// every three bytes or part of them.
pub open spec fn base64_len(len: int) -> int {
    (len / 3) * 4 + if len % 3 > 0 {
        4int
    } else {
        0int
    }
}

/// Encodes with `Engine::encode` of `base64::engine::general_purpose::STANDARD`.
/// Trusted: the text is a function of the bytes alone. The call panics
/// where the length of the text does not fit into `usize`; such input is
/// left out.
#[verifier::external_body]
fn encode_standard(data: &[u8]) -> (text: String)
    requires
        base64_len(data@.len() as int) <= usize::MAX,
    ensures
        text@ == base64_standard(data@),
{
    STANDARD.encode(data)
}

/// Encodes a payload in base64. There is no text for a payload so long
/// that the length of its text would not fit into `usize`.
pub fn to_base64(data: &[u8]) -> (text: Option<String>)
    ensures
        base64_len(data@.len() as int) <= usize::MAX ==> (text matches Some(encoded) && encoded@
            == base64_standard(data@)),
        base64_len(data@.len() as int) > usize::MAX ==> text is None,
{
    let chunks = data.len() / 3;
    if chunks > usize::MAX / 4 {
        return None;
    }
    if data.len() % 3 > 0 && chunks * 4 > usize::MAX - 4 {
        return None;
    }
    Some(encode_standard(data))
}

} // verus!
