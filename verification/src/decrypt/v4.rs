//! The container layout: a 15-byte header, an AES region, a region of plain
//! bytes and a trailing XORed region.
//!
//! | offset | length | field                              |
//! |--------|--------|------------------------------------|
//! | 0      | 6      | signature                          |
//! | 6      | 4      | size of the AES plaintext, u32 LE  |
//! | 10     | 4      | size of the XORed region, u32 LE   |
//! | 14     | 1      | reserved                           |

use super::aes::{
    aligned_size, blocks_stay_blocks, ecb_plaintext, lemma_ecb_plaintext_length, AesHandler,
};
use super::error::{outcome, DecryptError, DecryptErrorView};
use super::v3::{xor_bytes, V3Decryptor};
use vstd::prelude::*;
use vstd::slice::{slice_subrange, slice_to_vec};

verus! {

/// The unsigned 32-bit number that the four bytes of `bytes` from `at` on
/// spell, least significant byte first.
pub open spec fn le_u32(bytes: Seq<u8>, at: int) -> int
    recommends
        0 <= at,
        at + 4 <= bytes.len(),
{
    bytes[at] + bytes[at + 1] * 0x100 + bytes[at + 2] * 0x1_0000 + bytes[at + 3] * 0x100_0000
}

/// The size of the AES plaintext that the header of `data` gives.
pub open spec fn header_aes_size(data: Seq<u8>) -> int {
    le_u32(data, 6)
}

/// The size of the XORed region that the header of `data` gives.
pub open spec fn header_xor_size(data: Seq<u8>) -> int {
    le_u32(data, 10)
}

/// The offset at which the AES region of `data` ends: the header and the
/// padded AES plaintext come before it.
pub open spec fn aes_region_end(data: Seq<u8>) -> int {
    15 + aligned_size(header_aes_size(data))
}

/// The offset at which the XORed region of `data` starts.
pub open spec fn xor_region_start(data: Seq<u8>) -> int {
    data.len() - header_xor_size(data)
}

/// The AES ciphertext of `data`.
pub open spec fn aes_region(data: Seq<u8>) -> Seq<u8> {
    data.subrange(15, aes_region_end(data))
}

/// The plain bytes of `data` between the AES region and the XORed region.
pub open spec fn raw_region(data: Seq<u8>) -> Seq<u8> {
    data.subrange(aes_region_end(data), xor_region_start(data))
}

/// The XORed bytes at the end of `data`.
pub open spec fn xor_region(data: Seq<u8>) -> Seq<u8> {
    data.subrange(xor_region_start(data), data.len() as int)
}

/// Whether `data` holds a header and all of the regions that it announces.
pub open spec fn is_complete(data: Seq<u8>) -> bool {
    data.len() >= 15 && aes_region_end(data) <= xor_region_start(data)
}

/// The decrypted AES region of `data`, or why there is none: the file ends
/// inside the region, or the decrypted bytes do not end in padding.
pub open spec fn aes_section_plaintext(data: Seq<u8>, aes_key: Seq<u8>) -> Result<
    Seq<u8>,
    DecryptErrorView,
> {
    if data.len() < aes_region_end(data) {
        Err(DecryptErrorView::truncated())
    } else {
        ecb_plaintext(aes_region(data), aes_key)
    }
}

/// `aes_plain` followed by the plain region of `data` and by its XORed
/// region, decrypted with `xor_key`; an error where the file is too short
/// to hold the XORed region behind the AES region.
pub open spec fn with_remaining_sections(data: Seq<u8>, xor_key: u8, aes_plain: Seq<u8>) -> Result<
    Seq<u8>,
    DecryptErrorView,
> {
    if xor_region_start(data) < aes_region_end(data) {
        Err(DecryptErrorView::truncated())
    } else {
        Ok(aes_plain + raw_region(data) + xor_bytes(xor_region(data), xor_key))
    }
}

/// The plaintext of the container `data`, or the first error on the way:
/// the key is checked, then the header, then the AES region, then the rest.
pub open spec fn container_plaintext(data: Seq<u8>, xor_key: u8, aes_key: Seq<u8>) -> Result<
    Seq<u8>,
    DecryptErrorView,
> {
    if aes_key.len() != 16 {
        Err(DecryptErrorView::key_length())
    } else if data.len() < 15 {
        Err(DecryptErrorView::HeaderParseError)
    } else {
        match aes_section_plaintext(data, aes_key) {
            Ok(aes_plain) => with_remaining_sections(data, xor_key, aes_plain),
            Err(error) => Err(error),
        }
    }
}

/// A size field of the header is a 32-bit number.
pub proof fn lemma_le_u32_range(bytes: Seq<u8>, at: int)
    ensures
        0 <= le_u32(bytes, at) <= u32::MAX,
{
}

/// A complete container is its header, its AES region, its plain region and
/// its XORed region, in this order and with nothing else:
/// the length of the file is 15, the aligned AES size, the length of the
/// plain region and the XOR size together.
pub proof fn lemma_container_layout(data: Seq<u8>)
    requires
        is_complete(data),
    ensures
        data == data.take(15) + aes_region(data) + raw_region(data) + xor_region(data),
        aes_region(data).len() == aligned_size(header_aes_size(data)),
        xor_region(data).len() == header_xor_size(data),
        raw_region(data).len() == data.len() - 15 - aligned_size(header_aes_size(data))
            - header_xor_size(data),
        data.len() == 15 + aligned_size(header_aes_size(data)) + raw_region(data).len()
            + header_xor_size(data),
{
    lemma_le_u32_range(data, 6);
    lemma_le_u32_range(data, 10);
    assert(data =~= data.take(15) + aes_region(data) + raw_region(data) + xor_region(data));
}

/// A container decrypts if and only if its AES key is 16 bytes long, it is
/// complete, and its decrypted AES region ends in padding.
pub proof fn lemma_container_decrypts_iff(data: Seq<u8>, xor_key: u8, aes_key: Seq<u8>)
    ensures
        container_plaintext(data, xor_key, aes_key) is Ok <==> aes_key.len() == 16 && is_complete(
            data,
        ) && ecb_plaintext(aes_region(data), aes_key) is Ok,
{
    lemma_le_u32_range(data, 6);
    lemma_le_u32_range(data, 10);
}

/// Where blocks are decrypted to blocks, the plaintext of a container is
/// the file without its header and without the padding of the AES region:
/// shorter than the file by between 16 and 31 bytes.
pub proof fn lemma_container_plaintext_length(data: Seq<u8>, xor_key: u8, aes_key: Seq<u8>)
    ensures
        blocks_stay_blocks(aes_key, aes_region(data)) && container_plaintext(
            data,
            xor_key,
            aes_key,
        ) is Ok ==> data.len() - 31 <= container_plaintext(data, xor_key, aes_key)->Ok_0.len()
            <= data.len() - 16,
{
    lemma_le_u32_range(data, 6);
    lemma_le_u32_range(data, 10);
    lemma_ecb_plaintext_length(aes_region(data), aes_key);
}

/// The errors of a container: a key of the wrong length, a header of fewer
/// than 15 bytes, a file that ends inside a region, and decrypted bytes
/// that do not end in padding. There is no other.
pub proof fn lemma_container_errors(data: Seq<u8>, xor_key: u8, aes_key: Seq<u8>)
    ensures
        container_plaintext(data, xor_key, aes_key) matches Err(error) ==> {
            ||| error == DecryptErrorView::key_length()
            ||| error == DecryptErrorView::HeaderParseError
            ||| error == DecryptErrorView::truncated()
            ||| error == DecryptErrorView::empty_data()
            ||| error == DecryptErrorView::invalid_padding()
            ||| error == DecryptErrorView::padding_mismatch()
        },
{
}

/// With an XOR size of zero, everything behind the AES region is taken as
/// it is: the XOR key has no part in the plaintext.
pub proof fn lemma_no_xor_region(data: Seq<u8>, xor_key: u8, aes_key: Seq<u8>)
    requires
        data.len() >= 15,
        header_xor_size(data) == 0,
    ensures
        container_plaintext(data, xor_key, aes_key) matches Ok(plain) ==> ecb_plaintext(
            aes_region(data),
            aes_key,
        ) matches Ok(aes_plain) && plain == aes_plain + data.skip(aes_region_end(data)),
        forall|other_key: u8|
            container_plaintext(data, other_key, aes_key) == container_plaintext(
                data,
                xor_key,
                aes_key,
            ),
{
    lemma_le_u32_range(data, 6);
    assert forall|key: u8| #[trigger] xor_bytes(xor_region(data), key) =~= Seq::<u8>::empty() by {}
    if container_plaintext(data, xor_key, aes_key) is Ok {
        let aes_plain = ecb_plaintext(aes_region(data), aes_key)->Ok_0;
        assert(raw_region(data) =~= data.skip(aes_region_end(data)));
        assert(aes_plain + raw_region(data) + xor_bytes(xor_region(data), xor_key) =~= aes_plain
            + data.skip(aes_region_end(data)));
    }
    assert forall|other_key: u8|
        container_plaintext(data, other_key, aes_key) == container_plaintext(
            data,
            xor_key,
            aes_key,
        ) by {
        assert(xor_bytes(xor_region(data), other_key) == xor_bytes(xor_region(data), xor_key));
    }
}

/// A key that is not 16 bytes long is rejected whatever the file holds,
/// before its header is read and before any block is decrypted.
pub proof fn lemma_container_key_checked_first(data: Seq<u8>, xor_key: u8, aes_key: Seq<u8>)
    requires
        aes_key.len() != 16,
    ensures
        container_plaintext(data, xor_key, aes_key) == Err::<Seq<u8>, DecryptErrorView>(
            DecryptErrorView::key_length(),
        ),
{
}

/// Header of a container.
#[derive(Debug)]
pub struct V4Header {
    /// The six signature bytes.
    pub signature: [u8; 6],
    /// Length of the AES plaintext, before padding.
    pub aes_size: u32,
    /// Length of the XORed region at the end of the file.
    pub xor_size: u32,
}

impl V4Header {
    /// Length of the header on the wire. The fields take 14 bytes; the
    /// fifteenth is reserved.
    pub const SIZE: usize = 15;

    /// Whether this header is the one at the start of `data`.
    pub open spec fn describes(&self, data: Seq<u8>) -> bool {
        &&& self.signature@ == data.subrange(0, 6)
        &&& self.aes_size == header_aes_size(data)
        &&& self.xor_size == header_xor_size(data)
    }

    /// Parses the header at the start of `bytes`. Fails where fewer than 15
    /// bytes are given.
    pub fn from_bytes(bytes: &[u8]) -> (result: Result<V4Header, DecryptError>)
        ensures
            bytes@.len() >= 15 ==> (result matches Ok(header) && header.describes(bytes@)),
            bytes@.len() < 15 ==> (result matches Err(error) && error@
                == DecryptErrorView::HeaderParseError),
    {
        if bytes.len() < Self::SIZE {
            return Err(DecryptError::HeaderParseError);
        }
        let signature = [bytes[0], bytes[1], bytes[2], bytes[3], bytes[4], bytes[5]];
        assert(signature@ =~= bytes@.subrange(0, 6));
        let aes_size = read_u32_le(bytes, 6);
        let xor_size = read_u32_le(bytes, 10);
        Ok(V4Header { signature, aes_size, xor_size })
    }
}

/// Reads the little-endian `u32` that starts at `at`.
fn read_u32_le(bytes: &[u8], at: usize) -> (value: u32)
    requires
        at + 4 <= bytes@.len(),
    ensures
        value == le_u32(bytes@, at as int),
{
    let b0 = bytes[at] as u32;
    let b1 = bytes[at + 1] as u32;
    let b2 = bytes[at + 2] as u32;
    let b3 = bytes[at + 3] as u32;
    b0 + b1 * 0x100 + b2 * 0x1_0000 + b3 * 0x100_0000
}

/// Decryptor for containers.
pub struct V4Decryptor;

impl V4Decryptor {
    /// Decrypts the contents of a container. The plaintext is the decrypted
    /// AES region, then the plain region, then the XORed region decrypted
    /// with `xor_key`. The AES key must be 16 bytes long; this is checked
    /// before anything is read from `data`.
    pub fn decrypt(data: &[u8], xor_key: u8, aes_key: &[u8]) -> (result: Result<
        Vec<u8>,
        DecryptError,
    >)
        ensures
            outcome(result) == container_plaintext(data@, xor_key, aes_key@),
            aes_key@.len() != 16 ==> outcome(result) == Err::<Seq<u8>, _>(
                DecryptErrorView::key_length(),
            ),
            result matches Ok(plain) ==> data@.len() - 31 <= plain@.len() <= data@.len() - 16,
            result is Ok ==> blocks_stay_blocks(aes_key@, aes_region(data@)),
    {
        if aes_key.len() != 16 {
            return Err(DecryptError::key_length());
        }
        let header = match V4Header::from_bytes(data) {
            Ok(header) => header,
            Err(error) => {
                return Err(error);
            },
        };
        let decrypted_aes = match Self::decrypt_aes_section(data, &header, aes_key) {
            Ok(plain) => plain,
            Err(error) => {
                return Err(error);
            },
        };
        Self::decrypt_remaining_sections(data, &header, xor_key, decrypted_aes)
    }

    /// Decrypts the AES region, which starts behind the header and is as
    /// long as the padded plaintext.
    fn decrypt_aes_section(data: &[u8], header: &V4Header, aes_key: &[u8]) -> (result: Result<
        Vec<u8>,
        DecryptError,
    >)
        requires
            data@.len() >= 15,
            header.describes(data@),
        ensures
            outcome(result) == aes_section_plaintext(data@, aes_key@),
            result is Ok ==> aes_region_end(data@) <= data@.len() && blocks_stay_blocks(
                aes_key@,
                aes_region(data@),
            ),
            result matches Ok(plain) ==> aes_region(data@).len() - 16 <= plain@.len()
                < aes_region(data@).len(),
    {
        let available = data.len() - V4Header::SIZE;
        let aes_size = header.aes_size as usize;
        if aes_size >= available {
            return Err(DecryptError::truncated());
        }
        let aes_size_aligned = AesHandler::align_size(aes_size);
        if aes_size_aligned > available {
            return Err(DecryptError::truncated());
        }
        let aes_data = slice_subrange(data, V4Header::SIZE, V4Header::SIZE + aes_size_aligned);
        AesHandler::decrypt_ecb(aes_data, aes_key)
    }

    /// Appends what follows the AES region to `result`: the plain bytes as
    /// they are, then the last `xor_size` bytes XORed with `xor_key`. With
    /// an `xor_size` of zero the rest of the file is plain.
    fn decrypt_remaining_sections(
        data: &[u8],
        header: &V4Header,
        xor_key: u8,
        result: Vec<u8>,
    ) -> (extended: Result<Vec<u8>, DecryptError>)
        requires
            data@.len() >= 15,
            header.describes(data@),
            aes_region_end(data@) <= data@.len(),
        ensures
            outcome(extended) == with_remaining_sections(data@, xor_key, result@),
            extended matches Ok(all) ==> all@.len() == result@.len() + data@.len()
                - aes_region_end(data@),
    {
        let ghost aes_plain = result@;
        let mut result = result;
        let total = data.len();
        let position = V4Header::SIZE + AesHandler::align_size(header.aes_size as usize);
        let xor_size = header.xor_size as usize;
        if xor_size > 0 {
            let remaining = total - position;
            if remaining < xor_size {
                return Err(DecryptError::truncated());
            }
            let raw_len = remaining - xor_size;
            if raw_len > 0 {
                let mut raw_data = slice_to_vec(slice_subrange(data, position, position + raw_len));
                result.append(&mut raw_data);
            }
            let xor_data = slice_subrange(data, position + raw_len, total);
            let mut xored_data = V3Decryptor::xor_decrypt(xor_data, xor_key);
            assert(result@ =~= aes_plain + raw_region(data@));
            result.append(&mut xored_data);
        } else {
            let mut raw_data = slice_to_vec(slice_subrange(data, position, total));
            result.append(&mut raw_data);
            assert(result@ =~= aes_plain + raw_region(data@) + xor_bytes(
                xor_region(data@),
                xor_key,
            ));
        }
        Ok(result)
    }
}

} // verus!
