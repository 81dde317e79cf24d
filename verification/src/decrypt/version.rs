//! Classification of a cache file by its six-byte signature.

use vstd::prelude::*;

verus! {

/// The layout of a cache file.
#[derive(Debug, Clone, Copy, PartialEq, Eq, Structural)]
pub enum DatVersion {
    /// No signature: the whole file is XORed with a one-byte key.
    V3,
    /// Container whose AES region is encrypted with the fixed key.
    V4V1,
    /// Container whose AES region is encrypted with a per-account key.
    V4V2,
    /// A layout that this library does not decrypt.
    Unknown,
}

/// Signature of a container with the fixed key: `07 08 'V' '1' 08 07`.
pub open spec fn v4_v1_signature() -> Seq<u8> {
    seq![0x07u8, 0x08u8, 0x56u8, 0x31u8, 0x08u8, 0x07u8]
}

/// Signature of a container with a per-account key: `07 08 'V' '2' 08 07`.
pub open spec fn v4_v2_signature() -> Seq<u8> {
    seq![0x07u8, 0x08u8, 0x56u8, 0x32u8, 0x08u8, 0x07u8]
}

/// Whether `data` starts with the six bytes of `signature`.
pub open spec fn has_signature(data: Seq<u8>, signature: Seq<u8>) -> bool {
    data.len() >= 6 && data.subrange(0, 6) == signature
}

/// The layout that a file with the contents `data` has.
pub open spec fn version_of(data: Seq<u8>) -> DatVersion {
    if has_signature(data, v4_v1_signature()) {
        DatVersion::V4V1
    } else if has_signature(data, v4_v2_signature()) {
        DatVersion::V4V2
    } else {
        DatVersion::V3
    }
}

/// The layout follows from the first six bytes alone: the first signature
/// gives a container with the fixed key, the second a container with a
/// per-account key, and anything else, a file of fewer than six bytes
/// included, a legacy file. No file is classified as unknown.
pub proof fn lemma_version_by_signature(data: Seq<u8>)
    ensures
        version_of(data) == DatVersion::V4V1 <==> has_signature(data, v4_v1_signature()),
        version_of(data) == DatVersion::V4V2 <==> has_signature(data, v4_v2_signature()),
        version_of(data) == DatVersion::V3 <==> !has_signature(data, v4_v1_signature())
            && !has_signature(data, v4_v2_signature()),
        data.len() < 6 ==> version_of(data) == DatVersion::V3,
        version_of(data) != DatVersion::Unknown,
{
    assert(v4_v1_signature()[3] != v4_v2_signature()[3]);
}

/// Two files that start with the same six bytes have the same layout.
pub proof fn lemma_version_reads_six_bytes(first: Seq<u8>, second: Seq<u8>)
    requires
        first.len() >= 6,
        second.len() >= 6,
        first.subrange(0, 6) == second.subrange(0, 6),
    ensures
        version_of(first) == version_of(second),
{
}

/// Detects the layout of a cache file.
pub struct VersionDetector;

impl VersionDetector {
    /// Signature of a container with the fixed key.
    pub const V4_V1_SIGNATURE: [u8; 6] = [0x07, 0x08, 0x56, 0x31, 0x08, 0x07];

    /// Signature of a container with a per-account key.
    pub const V4_V2_SIGNATURE: [u8; 6] = [0x07, 0x08, 0x56, 0x32, 0x08, 0x07];

    /// Classifies a file by the start of its contents. Only the first six
    /// bytes of `data` are read; a shorter buffer, or one that starts with
    /// neither signature, is a legacy file.
    pub fn detect(data: &[u8]) -> (version: DatVersion)
        ensures
            version == version_of(data@),
            version != DatVersion::Unknown,
    {
        let v1 = Self::V4_V1_SIGNATURE;
        let v2 = Self::V4_V2_SIGNATURE;
        assert(v1@ =~= v4_v1_signature());
        assert(v2@ =~= v4_v2_signature());
        if starts_with_signature(data, &v1) {
            DatVersion::V4V1
        } else if starts_with_signature(data, &v2) {
            DatVersion::V4V2
        } else {
            DatVersion::V3
        }
    }
}

/// Compares the first six bytes of `data` with `signature`.
fn starts_with_signature(data: &[u8], signature: &[u8; 6]) -> (found: bool)
    ensures
        found == has_signature(data@, signature@),
{
    if data.len() < 6 {
        return false;
    }
    let mut i: usize = 0;
    while i < 6
        invariant
            i <= 6 <= data.len(),
            forall|j: int| 0 <= j < i ==> data[j] == signature[j],
        decreases 6 - i,
    {
        if data[i] != signature[i] {
            assert(data@.subrange(0, 6)[i as int] != signature@[i as int]);
            return false;
        }
        i += 1;
    }
    assert(data@.subrange(0, 6) =~= signature@);
    true
}

} // verus!
