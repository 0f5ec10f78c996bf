//! MurmurHash2A, the Merkle-Damgard variant of MurmurHash2.
use vstd::prelude::*;
use crate::bits::{le_word32, le_bytes_u16, le_bytes_u32, le_bytes_u64};
use crate::bits::{lemma_le_word32_of_bytes, lemma_le_bytes_u64_halves};

verus! {

/// The multiplier of every mixing step.
pub const M: u32 = 0x5bd1e995;

/// The shift of the mixing step.
pub const R: u32 = 24;

/// The state `h` after the word `k` has been mixed in.
pub open spec fn mixed(h: u32, k: u32) -> u32 {
    let k = k.wrapping_mul(M);
    let k = k ^ (k >> R);
    let k = k.wrapping_mul(M);
    h.wrapping_mul(M) ^ k
}

/// The word made of the fewer than four bytes that follow the last whole
/// word, least significant first and padded with zeros. It is zero when no
/// byte is left.
pub open spec fn tail_word(bytes: Seq<u8>) -> u32
    recommends
        bytes.len() < 4,
{
    let t: u32 = 0;
    let t = if bytes.len() == 3 {
        t ^ ((bytes[2] as u32) << 16)
    } else {
        t
    };
    let t = if bytes.len() >= 2 {
        t ^ ((bytes[1] as u32) << 8)
    } else {
        t
    };
    if bytes.len() >= 1 {
        t ^ (bytes[0] as u32)
    } else {
        t
    }
}

/// Mixes `bytes` into the state: every whole four-byte little-endian word in
/// turn, then the tail word, which is mixed even when it is empty.
pub open spec fn absorb(h: u32, bytes: Seq<u8>) -> u32
    decreases bytes.len(),
{
    if bytes.len() >= 4 {
        absorb(mixed(h, le_word32(bytes)), bytes.skip(4))
    } else {
        mixed(h, tail_word(bytes))
    }
}

/// The final mixing step.
pub open spec fn avalanche(h: u32) -> u32 {
    let h = h ^ (h >> 13);
    let h = h.wrapping_mul(M);
    h ^ (h >> 15)
}

/// The MurmurHash2A digest of `key`: its bytes, then its length, mixed into
/// the seed and finished by the avalanche.
pub open spec fn digest(seed: u32, key: Seq<u8>) -> u32
    recommends
        key.len() <= u32::MAX,
{
    avalanche(mixed(absorb(seed, key), key.len() as u32))
}

/// Mixes the word `k` into the state `h`.
pub fn mmix(h: &mut u32, k: u32)
    ensures
        *final(h) == mixed(*old(h), k),
{
    let mut k = k;
    k = k.wrapping_mul(M);
    k ^= k >> R;
    k = k.wrapping_mul(M);
    *h = h.wrapping_mul(M);
    *h ^= k;
}

/// Applies the final mixing step to an accumulator.
pub fn finalize(hash: u32) -> (h: u32)
    ensures
        h == avalanche(hash),
{
    let mut h = hash;
    h ^= h >> 13;
    h = h.wrapping_mul(M);
    h ^= h >> 15;
    h
}

proof fn lemma_absorb_one_word(h: u32, bytes: Seq<u8>)
    requires
        bytes.len() == 4,
    ensures
        absorb(h, bytes) == mixed(mixed(h, le_word32(bytes)), 0),
{
    reveal_with_fuel(absorb, 2);
}

proof fn lemma_absorb_two_words(h: u32, bytes: Seq<u8>)
    requires
        bytes.len() == 8,
    ensures
        absorb(h, bytes) == mixed(
            mixed(mixed(h, le_word32(bytes)), le_word32(bytes.skip(4))),
            0,
        ),
{
    lemma_absorb_one_word(mixed(h, le_word32(bytes)), bytes.skip(4));
}

/// Hashes the one-byte key `v` under `seed`.
pub fn hash8(seed: u32, v: u8) -> (h: u32)
    ensures
        h == digest(seed, seq![v]),
{
    let mut h = seed;
    mmix(&mut h, v as u32);
    mmix(&mut h, 1);
    proof {
        let t = v as u32;
        assert(0u32 ^ t == t) by (bit_vector);
    }
    finalize(h)
}

/// Hashes the two bytes of `v`, least significant first, under `seed`.
pub fn hash16(seed: u32, v: u16) -> (h: u32)
    ensures
        h == digest(seed, le_bytes_u16(v)),
{
    let mut h = seed;
    mmix(&mut h, v as u32);
    mmix(&mut h, 2);
    proof {
        assert((0u32 ^ ((((v >> 8) as u8) as u32) << 8)) ^ (((v & 0xff) as u8) as u32) == v as u32)
            by (bit_vector);
    }
    finalize(h)
}

/// Hashes the four bytes of `v`, least significant first, under `seed`.
/// The key ends on a word boundary: the tail word is zero, and is mixed all
/// the same.
pub fn hash32(seed: u32, v: u32) -> (h: u32)
    ensures
        h == digest(seed, le_bytes_u32(v)),
{
    let mut h = seed;
    mmix(&mut h, v);
    mmix(&mut h, 0);
    mmix(&mut h, 4);
    proof {
        lemma_le_word32_of_bytes(v);
        lemma_absorb_one_word(seed, le_bytes_u32(v));
    }
    finalize(h)
}

/// Hashes the eight bytes of `v`, least significant first, under `seed`:
/// the low word, the high word, and the zero tail word.
pub fn hash64(seed: u32, v: u64) -> (h: u32)
    ensures
        h == digest(seed, le_bytes_u64(v)),
{
    let mut h = seed;
    mmix(&mut h, v as u32);
    mmix(&mut h, (v >> 32) as u32);
    mmix(&mut h, 0);
    mmix(&mut h, 8);
    proof {
        lemma_le_bytes_u64_halves(v);
        lemma_absorb_two_words(seed, le_bytes_u64(v));
    }
    finalize(h)
}

} // verus!
