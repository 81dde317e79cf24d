//! AES-128 in ECB mode with PKCS#7 padding.

use super::error::{outcome, DecryptError, DecryptErrorView};
use ::aes::cipher::generic_array::GenericArray;
use ::aes::cipher::{BlockDecrypt, KeyInit};
use ::aes::Aes128;
use vstd::prelude::*;
use vstd::slice::{slice_subrange, slice_to_vec};

verus! {

/// The 16 bytes that AES-128 decryption with the 16-byte `key` makes of the
/// 16-byte `block`.
pub uninterp spec fn aes128_decrypt_block(key: Seq<u8>, block: Seq<u8>) -> Seq<u8>;

/// Decrypts one block with `aes::Aes128`: the cipher is made from `key` by
/// `KeyInit::new` and applied by `BlockDecrypt::decrypt_block`. Trusted: the
/// result is the AES-128 decryption of `block` under `key`, a function of
/// the two alone, and is one block long; and no other block is decrypted to
/// it under this key, a block cipher being a keyed permutation of blocks,
/// as the `cipher` crate describes what `Aes128` implements.
#[verifier::external_body]
fn decrypt_block(key: &[u8], block: &[u8]) -> (plain: Vec<u8>)
    requires
        key@.len() == 16,
        block@.len() == 16,
    ensures
        plain@ == aes128_decrypt_block(key@, block@),
        plain@.len() == 16,
        forall|other: Seq<u8>|
            other.len() == 16 && (#[trigger] aes128_decrypt_block(key@, other)) == plain@
                ==> other == block@,
{
    let cipher = Aes128::new(GenericArray::from_slice(key));
    let mut buffer = GenericArray::clone_from_slice(block);
    cipher.decrypt_block(&mut buffer);
    buffer.to_vec()
}

/// `data` with each complete 16-byte block decrypted on its own under `key`,
/// in order; a shorter last piece is kept as it is.
pub open spec fn ecb_decrypted(key: Seq<u8>, data: Seq<u8>) -> Seq<u8>
    decreases data.len(),
{
    if data.len() < 16 {
        data
    } else {
        aes128_decrypt_block(key, data.take(16)) + ecb_decrypted(key, data.skip(16))
    }
}

/// The block of `data` with the number `index`, counted from zero.
pub open spec fn block_at(data: Seq<u8>, index: int) -> Seq<u8> {
    data.subrange(16 * index, 16 * index + 16)
}

/// The number of bytes of `data` that stand in complete blocks.
pub open spec fn whole_blocks(data: Seq<u8>) -> int {
    16 * (data.len() as int / 16)
}

/// Whether each complete block of `data` is decrypted under `key` to a
/// block, that is to 16 bytes.
pub open spec fn blocks_stay_blocks(key: Seq<u8>, data: Seq<u8>) -> bool {
    forall|index: int|
        0 <= index && 16 * (index + 1) <= data.len() ==> aes128_decrypt_block(
            key,
            #[trigger] block_at(data, index),
        ).len() == 16
}

/// Whether no other block is decrypted under `key` to what `block` is
/// decrypted to.
pub open spec fn decrypts_apart(key: Seq<u8>, block: Seq<u8>) -> bool {
    forall|other: Seq<u8>|
        other.len() == 16 && (#[trigger] aes128_decrypt_block(key, other))
            == aes128_decrypt_block(key, block) ==> other == block
}

/// Whether each complete block of `data` is decrypted under `key` to
/// something that no other block is decrypted to.
pub open spec fn blocks_stay_apart(key: Seq<u8>, data: Seq<u8>) -> bool {
    forall|index: int|
        0 <= index && 16 * (index + 1) <= data.len() ==> decrypts_apart(
            key,
            #[trigger] block_at(data, index),
        )
}

/// The length to which `size` bytes grow under PKCS#7 padding with blocks of
/// 16 bytes: the least multiple of 16 that is greater than `size`.
pub open spec fn aligned_size(size: int) -> int {
    size + (16 - size % 16)
}

/// Whether `data` ends in PKCS#7 padding of at most one block.
pub open spec fn has_valid_padding(data: Seq<u8>) -> bool {
    &&& data.len() > 0
    &&& 1 <= data.last() <= 16
    &&& data.last() <= data.len()
    &&& forall|i: int| data.len() - data.last() <= i < data.len() ==> data[i] == data.last()
}

/// `data` without its PKCS#7 padding, or the reason why it has none.
pub open spec fn pkcs7_unpadded(data: Seq<u8>) -> Result<Seq<u8>, DecryptErrorView> {
    if data.len() == 0 {
        Err(DecryptErrorView::empty_data())
    } else if data.last() == 0 || data.last() > 16 || data.last() > data.len() {
        Err(DecryptErrorView::invalid_padding())
    } else if !has_valid_padding(data) {
        Err(DecryptErrorView::padding_mismatch())
    } else {
        Ok(data.take(data.len() - data.last()))
    }
}

/// What decrypting `data` under `key` gives: the key is checked first, then
/// the blocks are decrypted and the padding is removed.
pub open spec fn ecb_plaintext(data: Seq<u8>, key: Seq<u8>) -> Result<Seq<u8>, DecryptErrorView> {
    if key.len() != 16 {
        Err(DecryptErrorView::key_length())
    } else {
        pkcs7_unpadded(ecb_decrypted(key, data))
    }
}

/// Where blocks are decrypted to blocks, decryption in ECB mode keeps the
/// length, and each block of the result is the decryption of the block of
/// the data in the same place and of nothing else; what follows the last
/// complete block stays as it is.
pub proof fn lemma_ecb_block_by_block(key: Seq<u8>, data: Seq<u8>)
    ensures
        blocks_stay_blocks(key, data) ==> {
            &&& ecb_decrypted(key, data).len() == data.len()
            &&& forall|index: int|
                0 <= index && 16 * (index + 1) <= data.len() ==> #[trigger] block_at(
                    ecb_decrypted(key, data),
                    index,
                ) == aes128_decrypt_block(key, block_at(data, index))
            &&& ecb_decrypted(key, data).skip(whole_blocks(data)) == data.skip(
                whole_blocks(data),
            )
        },
    decreases data.len(),
{
    if blocks_stay_blocks(key, data) && data.len() >= 16 {
        let first = data.take(16);
        let rest = data.skip(16);
        let plain = ecb_decrypted(key, data);
        let plain_rest = ecb_decrypted(key, rest);
        assert(block_at(data, 0) =~= first);
        assert(aes128_decrypt_block(key, first).len() == 16);
        assert forall|index: int| 0 <= index && 16 * (index + 1) <= rest.len() implies (
        #[trigger] block_at(rest, index)) == block_at(data, index + 1) by {
            assert(block_at(rest, index) =~= block_at(data, index + 1));
        }
        assert(blocks_stay_blocks(key, rest)) by {
            assert forall|index: int|
                0 <= index && 16 * (index + 1) <= rest.len() implies aes128_decrypt_block(
                key,
                #[trigger] block_at(rest, index),
            ).len() == 16 by {
                assert(block_at(rest, index) == block_at(data, index + 1));
            }
        }
        lemma_ecb_block_by_block(key, rest);
        assert forall|index: int| 0 <= index && 16 * (index + 1) <= data.len() implies (
        #[trigger] block_at(plain, index)) == aes128_decrypt_block(key, block_at(data, index)) by {
            if index == 0 {
                assert(block_at(plain, 0) =~= aes128_decrypt_block(key, first));
            } else {
                assert(block_at(plain, index) =~= block_at(plain_rest, index - 1));
                assert(block_at(rest, index - 1) == block_at(data, index));
            }
        }
        assert(plain.skip(whole_blocks(data)) =~= plain_rest.skip(whole_blocks(rest)));
        assert(data.skip(whole_blocks(data)) =~= rest.skip(whole_blocks(rest)));
    } else if blocks_stay_blocks(key, data) {
        assert(ecb_decrypted(key, data).skip(0) =~= data.skip(0));
    }
}

/// No chaining: where blocks are decrypted to blocks and stay apart, two
/// inputs agree on a block of what they are decrypted to exactly where they
/// agree on the block in the same place.
pub proof fn lemma_ecb_blocks_independent(
    key: Seq<u8>,
    first: Seq<u8>,
    second: Seq<u8>,
    index: int,
)
    requires
        0 <= index,
        16 * (index + 1) <= first.len(),
        16 * (index + 1) <= second.len(),
    ensures
        blocks_stay_blocks(key, first) && blocks_stay_blocks(key, second) && blocks_stay_apart(
            key,
            first,
        ) ==> (block_at(ecb_decrypted(key, first), index) == block_at(
            ecb_decrypted(key, second),
            index,
        ) <==> block_at(first, index) == block_at(second, index)),
{
    lemma_ecb_block_by_block(key, first);
    lemma_ecb_block_by_block(key, second);
    if blocks_stay_blocks(key, first) && blocks_stay_blocks(key, second) && blocks_stay_apart(
        key,
        first,
    ) {
        assert(block_at(second, index).len() == 16);
        assert(decrypts_apart(key, block_at(first, index)));
        assert(block_at(ecb_decrypted(key, first), index) == aes128_decrypt_block(
            key,
            block_at(first, index),
        ));
        assert(block_at(ecb_decrypted(key, second), index) == aes128_decrypt_block(
            key,
            block_at(second, index),
        ));
    }
}

/// Where blocks are decrypted to blocks, the plaintext is shorter than the
/// data by the padding: by between 1 and 16 bytes.
pub proof fn lemma_ecb_plaintext_length(data: Seq<u8>, key: Seq<u8>)
    ensures
        blocks_stay_blocks(key, data) && ecb_plaintext(data, key) is Ok ==> data.len() - 16
            <= ecb_plaintext(data, key)->Ok_0.len() < data.len(),
{
    lemma_ecb_block_by_block(key, data);
}

/// The aligned size is a multiple of 16 above `size`, at most one block
/// away: a size that is already a multiple of 16 grows by a whole block.
pub proof fn lemma_aligned_size(size: nat)
    ensures
        aligned_size(size as int) % 16 == 0,
        size < aligned_size(size as int) <= size + 16,
        size % 16 == 0 ==> aligned_size(size as int) == size + 16,
{
}

/// No multiple of 16 lies between `size` and its aligned size.
pub proof fn lemma_aligned_size_is_least(size: nat, multiple: int)
    requires
        multiple % 16 == 0,
        multiple > size,
    ensures
        multiple >= aligned_size(size as int),
{
    let aligned = aligned_size(size as int);
    if multiple < aligned {
        assert(aligned - 16 <= size < multiple < aligned);
        assert((aligned - multiple) % 16 == 0);
    }
}

/// `pad` bytes of the value `pad`: the PKCS#7 padding of that length.
pub open spec fn pkcs7_padding(pad: u8) -> Seq<u8> {
    Seq::new(pad as nat, |i: int| pad)
}

/// Removing the padding undoes adding it: data followed by between 1 and 16
/// padding bytes is unpadded to the data.
pub proof fn lemma_unpad_of_padded(plain: Seq<u8>, pad: u8)
    requires
        1 <= pad <= 16,
    ensures
        has_valid_padding(plain + pkcs7_padding(pad)),
        pkcs7_unpadded(plain + pkcs7_padding(pad)) == Ok::<Seq<u8>, DecryptErrorView>(plain),
{
    let padded = plain + pkcs7_padding(pad);
    assert(padded.last() == pad);
    assert(padded.take(padded.len() - pad) =~= plain);
}

/// Unpadding only ever shortens: what it returns is a proper prefix of the
/// data, shorter by between 1 and 16 bytes.
pub proof fn lemma_unpadded_is_prefix(data: Seq<u8>)
    requires
        pkcs7_unpadded(data) is Ok,
    ensures
        has_valid_padding(data),
        pkcs7_unpadded(data)->Ok_0 + pkcs7_padding(data.last()) == data,
        data.len() - 16 <= pkcs7_unpadded(data)->Ok_0.len() < data.len(),
{
    assert(pkcs7_unpadded(data)->Ok_0 + pkcs7_padding(data.last()) =~= data);
}

/// A key that is not 16 bytes long is rejected whatever the data is, before
/// any block is decrypted.
pub proof fn lemma_key_length_checked_first(data: Seq<u8>, key: Seq<u8>)
    requires
        key.len() != 16,
    ensures
        ecb_plaintext(data, key) == Err::<Seq<u8>, DecryptErrorView>(
            DecryptErrorView::key_length(),
        ),
{
}

/// AES-128-ECB decryption and PKCS#7 padding.
pub struct AesHandler;

impl AesHandler {
    /// Length of an AES block in bytes.
    pub const BLOCK_SIZE: usize = 16;

    /// Decrypts `data` block by block under the 16-byte `key` and removes
    /// the padding. A key of another length is rejected before any block is
    /// decrypted.
    pub fn decrypt_ecb(data: &[u8], key: &[u8]) -> (result: Result<Vec<u8>, DecryptError>)
        ensures
            outcome(result) == ecb_plaintext(data@, key@),
            key@.len() != 16 ==> outcome(result) == Err::<Seq<u8>, _>(
                DecryptErrorView::key_length(),
            ),
            key@.len() == 16 ==> blocks_stay_blocks(key@, data@) && blocks_stay_apart(
                key@,
                data@,
            ) && ecb_decrypted(key@, data@).len() == data@.len(),
            result matches Ok(plain) ==> data@.len() - 16 <= plain@.len() < data@.len(),
    {
        if key.len() != 16 {
            return Err(DecryptError::key_length());
        }
        let mut plain: Vec<u8> = Vec::with_capacity(data.len());
        let mut done: usize = 0;
        assert(plain@ + ecb_decrypted(key@, data@.skip(0)) =~= ecb_decrypted(key@, data@)) by {
            assert(data@.skip(0) =~= data@);
        }
        while data.len() - done >= 16
            invariant
                key@.len() == 16,
                done <= data.len(),
                done % 16 == 0,
                plain@.len() == done,
                forall|index: int|
                    0 <= index && 16 * (index + 1) <= done ==> aes128_decrypt_block(
                        key@,
                        #[trigger] block_at(data@, index),
                    ).len() == 16 && decrypts_apart(key@, block_at(data@, index)),
                plain@ + ecb_decrypted(key@, data@.skip(done as int)) == ecb_decrypted(
                    key@,
                    data@,
                ),
            decreases data.len() - done,
        {
            let block = slice_subrange(data, done, done + 16);
            let mut decrypted = decrypt_block(key, block);
            proof {
                let rest = data@.skip(done as int);
                assert(block@ == block_at(data@, done as int / 16));
                assert(decrypts_apart(key@, block@));
                assert(rest.take(16) =~= block@);
                assert(rest.skip(16) =~= data@.skip(done + 16));
                assert((plain@ + decrypted@) + ecb_decrypted(key@, rest.skip(16)) =~= plain@ + (
                decrypted@ + ecb_decrypted(key@, rest.skip(16))));
            }
            plain.append(&mut decrypted);
            done += 16;
        }
        let mut tail = slice_to_vec(slice_subrange(data, done, data.len()));
        assert(tail@ =~= data@.skip(done as int));
        plain.append(&mut tail);
        assert(blocks_stay_blocks(key@, data@));
        assert(blocks_stay_apart(key@, data@));
        match Self::pkcs7_unpad(&mut plain) {
            Ok(()) => Ok(plain),
            Err(error) => Err(error),
        }
    }

    /// Removes PKCS#7 padding from the end of `data`. The last byte is the
    /// padding length: between 1 and 16, no more than the data, and the
    /// value of every padding byte. Otherwise `data` is left as it was.
    pub fn pkcs7_unpad(data: &mut Vec<u8>) -> (result: Result<(), DecryptError>)
        ensures
            match pkcs7_unpadded(old(data)@) {
                Ok(plain) => result is Ok && final(data)@ == plain,
                Err(error) => result matches Err(e) && e@ == error && final(data)@ == old(data)@,
            },
            result is Ok <==> has_valid_padding(old(data)@),
    {
        if data.len() == 0 {
            return Err(DecryptError::empty_data());
        }
        let last = data[data.len() - 1];
        let padding_len = last as usize;
        if padding_len == 0 || padding_len > Self::BLOCK_SIZE || padding_len > data.len() {
            return Err(DecryptError::invalid_padding());
        }
        let start = data.len() - padding_len;
        let mut i = start;
        while i < data.len()
            invariant
                start <= i <= data.len(),
                data@ == old(data)@,
                start == data.len() - padding_len,
                1 <= padding_len <= 16,
                padding_len == data@.last(),
                last == data@.last(),
                forall|j: int| start <= j < i ==> data@[j] == last,
            decreases data.len() - i,
        {
            if data[i] != last {
                assert(!has_valid_padding(data@));
                return Err(DecryptError::padding_mismatch());
            }
            i += 1;
        }
        data.truncate(start);
        Ok(())
    }

    /// The number of bytes that an AES region of `size` plaintext bytes
    /// takes: `size + (16 - size % 16)`. A size that is a multiple of 16
    /// grows by a whole block.
    pub fn align_size(size: usize) -> (aligned: usize)
        requires
            aligned_size(size as int) <= usize::MAX,
        ensures
            aligned == aligned_size(size as int),
            aligned % 16 == 0,
            size < aligned <= size + 16,
    {
        size + (Self::BLOCK_SIZE - size % Self::BLOCK_SIZE)
    }
}

} // verus!
