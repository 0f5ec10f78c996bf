//! Bit rotations and little-endian byte encodings shared by the hashers.
use vstd::prelude::*;

verus! {

/// `x` rotated left by `n` bit positions within 32 bits: the bits pushed out
/// at the top come back in at the bottom. Only `n` modulo 32 counts.
pub open spec fn rotl32(x: u32, n: u32) -> u32 {
    let k = n % 32;
    if k == 0 {
        x
    } else {
        (x << k) | (x >> ((32 - k) as u32))
    }
}

/// `x` rotated left by `n` bit positions within 64 bits: the bits pushed out
/// at the top come back in at the bottom. Only `n` modulo 64 counts.
pub open spec fn rotl64(x: u64, n: u32) -> u64 {
    let k = n % 64;
    if k == 0 {
        x
    } else {
        (x << k) | (x >> ((64 - k) as u32))
    }
}

/// Rotates `x` left by `n` positions.
#[inline(always)]
pub fn rotate_left_32(x: u32, n: u32) -> (r: u32)
    ensures
        r == rotl32(x, n),
{
    let k: u32 = n % 32;
    if k == 0 {
        x
    } else {
        (x << k) | (x >> (32 - k))
    }
}

/// Rotates `x` left by `n` positions.
#[inline(always)]
pub fn rotate_left_64(x: u64, n: u32) -> (r: u64)
    ensures
        r == rotl64(x, n),
{
    let k: u32 = n % 64;
    if k == 0 {
        x
    } else {
        (x << k) | (x >> (64 - k))
    }
}

/// The two bytes of `v`, least significant first.
pub open spec fn le_bytes_u16(v: u16) -> Seq<u8> {
    seq![(v & 0xff) as u8, (v >> 8) as u8]
}

/// The four bytes of `v`, least significant first.
pub open spec fn le_bytes_u32(v: u32) -> Seq<u8> {
    seq![
        (v & 0xff) as u8,
        ((v >> 8) & 0xff) as u8,
        ((v >> 16) & 0xff) as u8,
        (v >> 24) as u8,
    ]
}

/// The eight bytes of `v`, least significant first.
pub open spec fn le_bytes_u64(v: u64) -> Seq<u8> {
    seq![
        (v & 0xff) as u8,
        ((v >> 8) & 0xff) as u8,
        ((v >> 16) & 0xff) as u8,
        ((v >> 24) & 0xff) as u8,
        ((v >> 32) & 0xff) as u8,
        ((v >> 40) & 0xff) as u8,
        ((v >> 48) & 0xff) as u8,
        (v >> 56) as u8,
    ]
}

/// The 32-bit word whose little-endian encoding is the first four bytes of
/// `bytes`.
pub open spec fn le_word32(bytes: Seq<u8>) -> u32
    recommends
        bytes.len() >= 4,
{
    (bytes[0] as u32) | ((bytes[1] as u32) << 8) | ((bytes[2] as u32) << 16) | ((bytes[3] as u32)
        << 24)
}

/// The 64-bit word whose little-endian encoding is the first eight bytes of
/// `bytes`.
pub open spec fn le_word64(bytes: Seq<u8>) -> u64
    recommends
        bytes.len() >= 8,
{
    (le_word32(bytes) as u64) | ((le_word32(bytes.skip(4)) as u64) << 32)
}

/// The bytes of a 16-bit word are its low and its high byte.
pub proof fn lemma_le_bytes_u16(v: u16)
    ensures
        le_bytes_u16(v).len() == 2,
        le_bytes_u16(v)[0] == v & 0xff,
        le_bytes_u16(v)[1] == v >> 8,
{
    assert(((v & 0xff) as u8) == (v & 0xff) && ((v >> 8) as u8) == (v >> 8)) by (bit_vector);
}

/// Decoding the little-endian encoding of a 32-bit word gives the word back.
pub proof fn lemma_le_word32_of_bytes(v: u32)
    ensures
        le_bytes_u32(v).len() == 4,
        le_word32(le_bytes_u32(v)) == v,
{
    assert((((v & 0xff) as u8) as u32) | ((((v >> 8) & 0xff) as u8 as u32) << 8) | ((((v >> 16)
        & 0xff) as u8 as u32) << 16) | (((v >> 24) as u8 as u32) << 24) == v) by (bit_vector);
}

/// The little-endian encoding of a 64-bit word is that of its low half
/// followed by that of its high half, and decodes to the word.
pub proof fn lemma_le_bytes_u64_halves(v: u64)
    ensures
        le_bytes_u64(v).len() == 8,
        le_bytes_u64(v) =~= le_bytes_u32(v as u32) + le_bytes_u32((v >> 32) as u32),
        le_word32(le_bytes_u64(v)) == v as u32,
        le_word32(le_bytes_u64(v).skip(4)) == (v >> 32) as u32,
        le_word64(le_bytes_u64(v)) == v,
{
    let lo = v as u32;
    let hi = (v >> 32) as u32;
    assert({
        &&& (lo & 0xff) as u8 == (v & 0xff) as u8
        &&& ((lo >> 8) & 0xff) as u8 == ((v >> 8) & 0xff) as u8
        &&& ((lo >> 16) & 0xff) as u8 == ((v >> 16) & 0xff) as u8
        &&& (lo >> 24) as u8 == ((v >> 24) & 0xff) as u8
    }) by (bit_vector)
        requires
            lo == v as u32,
    ;
    assert({
        &&& (hi & 0xff) as u8 == ((v >> 32) & 0xff) as u8
        &&& ((hi >> 8) & 0xff) as u8 == ((v >> 40) & 0xff) as u8
        &&& ((hi >> 16) & 0xff) as u8 == ((v >> 48) & 0xff) as u8
        &&& (hi >> 24) as u8 == (v >> 56) as u8
    }) by (bit_vector)
        requires
            hi == (v >> 32) as u32,
    ;
    let b = le_bytes_u64(v);
    assert(b =~= le_bytes_u32(lo) + le_bytes_u32(hi));
    assert(b.skip(4) =~= le_bytes_u32(hi));
    lemma_le_word32_of_bytes(lo);
    lemma_le_word32_of_bytes(hi);
    assert(le_word32(b) == le_word32(le_bytes_u32(lo)));
    assert((lo as u64) | ((hi as u64) << 32) == v) by (bit_vector)
        requires
            lo == v as u32,
            hi == (v >> 32) as u32,
    ;
}

} // verus!
