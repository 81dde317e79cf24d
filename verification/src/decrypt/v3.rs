//! The legacy layout: every byte XORed with a one-byte key.

use vstd::prelude::*;

verus! {

/// `data` with every byte XORed with `key`.
pub open spec fn xor_bytes(data: Seq<u8>, key: u8) -> Seq<u8> {
    Seq::new(data.len(), |i: int| data[i] ^ key)
}

/// XOR with a key undoes itself: applying it twice gives the data back.
pub proof fn lemma_xor_involution(data: Seq<u8>, key: u8)
    ensures
        xor_bytes(xor_bytes(data, key), key) == data,
{
    assert forall|i: int| 0 <= i < data.len() implies (#[trigger] data[i] ^ key) ^ key
        == data[i] by {
        let byte = data[i];
        assert((byte ^ key) ^ key == byte) by (bit_vector);
    }
    assert(xor_bytes(xor_bytes(data, key), key) =~= data);
}

/// Decryptor for legacy files.
pub struct V3Decryptor;

impl V3Decryptor {
    /// Decrypts the contents of a legacy file: the whole of `data` is XORed
    /// with `xor_key`.
    pub fn decrypt(data: &[u8], xor_key: u8) -> (plain: Vec<u8>)
        ensures
            plain@ == xor_bytes(data@, xor_key),
    {
        Self::xor_decrypt(data, xor_key)
    }

    /// XORs every byte of `data` with `key`. The same call encrypts and
    /// decrypts.
    pub fn xor_decrypt(data: &[u8], key: u8) -> (out: Vec<u8>)
        ensures
            out@ == xor_bytes(data@, key),
            out@.len() == data@.len(),
    {
        let mut out: Vec<u8> = Vec::with_capacity(data.len());
        let mut i: usize = 0;
        while i < data.len()
            invariant
                i <= data.len(),
                out@.len() == i,
                forall|j: int| 0 <= j < i ==> out@[j] == data@[j] ^ key,
            decreases data.len() - i,
        {
            out.push(data[i] ^ key);
            i += 1;
        }
        assert(out@ =~= xor_bytes(data@, key));
        out
    }
}

} // verus!
