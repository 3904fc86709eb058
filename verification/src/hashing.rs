//! Cryptographic digests, computed by the Solana SDK, and the byte strings
//! that are fed to them.

use vstd::prelude::*;
use vstd::bytes::{spec_u64_from_le_bytes, spec_u64_to_le_bytes, u64_from_le_bytes, u64_to_le_bytes};

verus! {

/// The Keccak-256 digest of a byte string.
pub uninterp spec fn keccak256(data: Seq<u8>) -> Seq<u8>;

/// The SHA-256 digest of a byte string.
pub uninterp spec fn sha256(data: Seq<u8>) -> Seq<u8>;

/// Calls `solana_program::keccak::hash`, which returns the Keccak-256 digest
/// of `data`.  The digest depends on the bytes alone; nothing else is claimed.
#[verifier::external_body]
pub(crate) fn keccak_hash(data: &[u8]) -> (digest: [u8; 32])
    ensures
        digest@ == keccak256(data@),
{
    solana_program::keccak::hash(data).to_bytes()
}

/// Calls `solana_program::hash::hash`, which returns the SHA-256 digest of
/// `data`.  The digest depends on the bytes alone; nothing else is claimed.
#[verifier::external_body]
pub(crate) fn sha256_hash(data: &[u8]) -> (digest: [u8; 32])
    ensures
        digest@ == sha256(data@),
{
    solana_program::hash::hash(data).to_bytes()
}

/// The eight little-endian bytes of a signed 64-bit value, in two's complement.
pub open spec fn i64_le_bytes(x: i64) -> Seq<u8> {
    spec_u64_to_le_bytes(x as u64)
}

/// The unsigned number that the first eight bytes of a digest spell, least
/// significant byte first.
pub open spec fn leading_u64(digest: Seq<u8>) -> u64 {
    spec_u64_from_le_bytes(digest.subrange(0, 8))
}

/// Appends `src` to `buf`.
pub fn append_bytes(buf: &mut Vec<u8>, src: &[u8])
    ensures
        final(buf)@ == old(buf)@ + src@,
{
    let mut i: usize = 0;
    while i < src.len()
        invariant
            i <= src.len(),
            buf@ == old(buf)@ + src@.subrange(0, i as int),
        decreases src.len() - i,
    {
        buf.push(src[i]);
        i = i + 1;
    }
    assert(src@.subrange(0, src@.len() as int) == src@);
}

/// Appends the little-endian bytes of `x` to `buf`.
pub fn append_u64_le(buf: &mut Vec<u8>, x: u64)
    ensures
        final(buf)@ == old(buf)@ + spec_u64_to_le_bytes(x),
{
    let bytes = u64_to_le_bytes(x);
    append_bytes(buf, bytes.as_slice());
}

/// Appends the little-endian two's-complement bytes of `x` to `buf`.
pub fn append_i64_le(buf: &mut Vec<u8>, x: i64)
    ensures
        final(buf)@ == old(buf)@ + i64_le_bytes(x),
{
    let bytes = u64_to_le_bytes(
        #[verifier::truncate]
        (x as u64),
    );
    append_bytes(buf, bytes.as_slice());
}

/// Reads the first eight bytes of a digest as a little-endian number.
pub fn digest_to_u64(digest: &[u8; 32]) -> (x: u64)
    ensures
        x == leading_u64(digest@),
{
    let mut head: Vec<u8> = Vec::new();
    let mut i: usize = 0;
    while i < 8
        invariant
            i <= 8,
            head@ == digest@.subrange(0, i as int),
        decreases 8 - i,
    {
        head.push(digest[i]);
        i = i + 1;
    }
    u64_from_le_bytes(head.as_slice())
}

} // verus!
