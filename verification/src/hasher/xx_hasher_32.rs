//! The 32-bit xxHash of a short key.
use vstd::prelude::*;
use crate::bits::{rotl32, rotate_left_32, le_word32, le_bytes_u16, le_bytes_u32, le_bytes_u64};
use crate::bits::{lemma_le_bytes_u16, lemma_le_word32_of_bytes, lemma_le_bytes_u64_halves};

verus! {

pub const P1: u32 = 0x9E3779B1;

pub const P2: u32 = 0x85EBCA77;

pub const P3: u32 = 0xC2B2AE3D;

pub const P4: u32 = 0x27D4EB2F;

pub const P5: u32 = 0x165667B1;

/// The accumulator after one four-byte word has been folded in.
pub open spec fn absorb_word(acc: u32, word: u32) -> u32 {
    rotl32(acc.wrapping_add(word.wrapping_mul(P3)), 17).wrapping_mul(P4)
}

/// The accumulator after one single byte has been folded in.
pub open spec fn absorb_byte(acc: u32, byte: u8) -> u32 {
    rotl32(acc.wrapping_add((byte as u32).wrapping_mul(P5)), 11).wrapping_mul(P1)
}

/// Folds `bytes` into the accumulator: four-byte little-endian words while
/// four bytes remain, then the remaining bytes one by one.
pub open spec fn absorb(acc: u32, bytes: Seq<u8>) -> u32
    decreases bytes.len(),
{
    if bytes.len() >= 4 {
        absorb(absorb_word(acc, le_word32(bytes)), bytes.skip(4))
    } else if bytes.len() >= 1 {
        absorb(absorb_byte(acc, bytes[0]), bytes.skip(1))
    } else {
        acc
    }
}

/// The final mixing step, which spreads every input bit over the output.
pub open spec fn avalanche(h: u32) -> u32 {
    let h = h ^ (h >> 15);
    let h = h.wrapping_mul(P2);
    let h = h ^ (h >> 13);
    let h = h.wrapping_mul(P3);
    h ^ (h >> 16)
}

/// The xxHash32 digest of a key shorter than one 16-byte stripe.
pub open spec fn digest(seed: u32, key: Seq<u8>) -> u32
    recommends
        key.len() < 16,
{
    avalanche(absorb(seed.wrapping_add(P5).wrapping_add(key.len() as u32), key))
}

/// Applies the final mixing step to an accumulator.
pub fn finalize(hash: u32) -> (h: u32)
    ensures
        h == avalanche(hash),
{
    let mut hash = hash;
    hash ^= hash >> 15;
    hash = hash.wrapping_mul(P2);
    hash ^= hash >> 13;
    hash = hash.wrapping_mul(P3);
    hash ^= hash >> 16;
    hash
}

proof fn lemma_absorb_one_byte(acc: u32, bytes: Seq<u8>)
    requires
        bytes.len() == 1,
    ensures
        absorb(acc, bytes) == absorb_byte(acc, bytes[0]),
{
    reveal_with_fuel(absorb, 2);
}

proof fn lemma_absorb_two_bytes(acc: u32, bytes: Seq<u8>)
    requires
        bytes.len() == 2,
    ensures
        absorb(acc, bytes) == absorb_byte(absorb_byte(acc, bytes[0]), bytes[1]),
{
    lemma_absorb_one_byte(absorb_byte(acc, bytes[0]), bytes.skip(1));
}

proof fn lemma_absorb_one_word(acc: u32, bytes: Seq<u8>)
    requires
        bytes.len() == 4,
    ensures
        absorb(acc, bytes) == absorb_word(acc, le_word32(bytes)),
{
    reveal_with_fuel(absorb, 2);
}

proof fn lemma_absorb_two_words(acc: u32, bytes: Seq<u8>)
    requires
        bytes.len() == 8,
    ensures
        absorb(acc, bytes) == absorb_word(
            absorb_word(acc, le_word32(bytes)),
            le_word32(bytes.skip(4)),
        ),
{
    lemma_absorb_one_word(absorb_word(acc, le_word32(bytes)), bytes.skip(4));
}

/// Hashes the one-byte key `v` under `seed`.
pub fn hash8(seed: u32, v: u8) -> (h: u32)
    ensures
        h == digest(seed, seq![v]),
{
    let mut hash = seed.wrapping_add(P5).wrapping_add(1);
    hash = rotate_left_32(hash.wrapping_add((v as u32).wrapping_mul(P5)), 11).wrapping_mul(P1);
    proof {
        lemma_absorb_one_byte(seed.wrapping_add(P5).wrapping_add(1), seq![v]);
    }
    finalize(hash)
}

/// Hashes the two bytes of `v`, least significant first, under `seed`.
pub fn hash16(seed: u32, v: u16) -> (h: u32)
    ensures
        h == digest(seed, le_bytes_u16(v)),
{
    let mut hash = seed.wrapping_add(P5).wrapping_add(2);
    hash = rotate_left_32(hash.wrapping_add(((v & 0xFF) as u32).wrapping_mul(P5)), 11).wrapping_mul(
        P1,
    );
    hash = rotate_left_32(hash.wrapping_add(((v >> 8) as u32).wrapping_mul(P5)), 11).wrapping_mul(
        P1,
    );
    proof {
        lemma_le_bytes_u16(v);
        lemma_absorb_two_bytes(seed.wrapping_add(P5).wrapping_add(2), le_bytes_u16(v));
    }
    finalize(hash)
}

/// Hashes the four bytes of `v`, least significant first, under `seed`.
pub fn hash32(seed: u32, v: u32) -> (h: u32)
    ensures
        h == digest(seed, le_bytes_u32(v)),
{
    let mut hash = seed.wrapping_add(P5).wrapping_add(4);
    hash = rotate_left_32(hash.wrapping_add(v.wrapping_mul(P3)), 17).wrapping_mul(P4);
    proof {
        lemma_le_word32_of_bytes(v);
        lemma_absorb_one_word(seed.wrapping_add(P5).wrapping_add(4), le_bytes_u32(v));
    }
    finalize(hash)
}

/// Hashes the eight bytes of `v`, least significant first, under `seed`.
pub fn hash64(seed: u32, v: u64) -> (h: u32)
    ensures
        h == digest(seed, le_bytes_u64(v)),
{
    let mut hash = seed.wrapping_add(P5).wrapping_add(8);
    hash = rotate_left_32(hash.wrapping_add((v as u32).wrapping_mul(P3)), 17).wrapping_mul(P4);
    hash = rotate_left_32(hash.wrapping_add(((v >> 32) as u32).wrapping_mul(P3)), 17).wrapping_mul(
        P4,
    );
    proof {
        lemma_le_bytes_u64_halves(v);
        lemma_absorb_two_words(seed.wrapping_add(P5).wrapping_add(8), le_bytes_u64(v));
    }
    finalize(hash)
}

} // verus!
