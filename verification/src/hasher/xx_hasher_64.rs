//! The 64-bit xxHash of a short key.
use vstd::prelude::*;
use crate::bits::{rotl64, rotate_left_64, le_word32, le_word64, le_bytes_u16, le_bytes_u32, le_bytes_u64};
use crate::bits::{lemma_le_bytes_u16, lemma_le_word32_of_bytes, lemma_le_bytes_u64_halves};

verus! {

pub const P1: u64 = 0x9E3779B185EBCA87;

pub const P2: u64 = 0xC2B2AE3D27D4EB4F;

pub const P3: u64 = 0x165667B19E3779F9;

pub const P4: u64 = 0x85EBCA77C2B2AE63;

pub const P5: u64 = 0x27D4EB2F165667C5;

/// One eight-byte word, scrambled before it meets the accumulator.
pub open spec fn scramble(word: u64) -> u64 {
    rotl64(word.wrapping_mul(P2), 31).wrapping_mul(P1)
}

/// The accumulator after one eight-byte word has been folded in.
pub open spec fn absorb_word64(acc: u64, word: u64) -> u64 {
    rotl64(acc ^ scramble(word), 27).wrapping_mul(P1).wrapping_add(P4)
}

/// The accumulator after one four-byte word has been folded in.
pub open spec fn absorb_word32(acc: u64, word: u32) -> u64 {
    rotl64(acc ^ (word as u64).wrapping_mul(P1), 23).wrapping_mul(P2).wrapping_add(P3)
}

/// The accumulator after one single byte has been folded in.
pub open spec fn absorb_byte(acc: u64, byte: u8) -> u64 {
    rotl64(acc ^ (byte as u64).wrapping_mul(P5), 11).wrapping_mul(P1)
}

/// Folds `bytes` into the accumulator: eight-byte little-endian words while
/// eight bytes remain, then a four-byte word if four remain, then the
/// remaining bytes one by one.
pub open spec fn absorb(acc: u64, bytes: Seq<u8>) -> u64
    decreases bytes.len(),
{
    if bytes.len() >= 8 {
        absorb(absorb_word64(acc, le_word64(bytes)), bytes.skip(8))
    } else if bytes.len() >= 4 {
        absorb(absorb_word32(acc, le_word32(bytes)), bytes.skip(4))
    } else if bytes.len() >= 1 {
        absorb(absorb_byte(acc, bytes[0]), bytes.skip(1))
    } else {
        acc
    }
}

/// The final mixing step, which spreads every input bit over the output.
pub open spec fn avalanche(h: u64) -> u64 {
    let h = h ^ (h >> 33);
    let h = h.wrapping_mul(P2);
    let h = h ^ (h >> 29);
    let h = h.wrapping_mul(P3);
    h ^ (h >> 32)
}

/// The xxHash64 digest of a key shorter than one 32-byte stripe.
pub open spec fn digest(seed: u64, key: Seq<u8>) -> u64
    recommends
        key.len() < 32,
{
    avalanche(absorb(seed.wrapping_add(P5).wrapping_add(key.len() as u64), key))
}

/// Applies the final mixing step to an accumulator.
pub fn finalize(hash: u64) -> (h: u64)
    ensures
        h == avalanche(hash),
{
    let mut hash = hash;
    hash ^= hash >> 33;
    hash = hash.wrapping_mul(P2);
    hash ^= hash >> 29;
    hash = hash.wrapping_mul(P3);
    hash ^= hash >> 32;
    hash
}

proof fn lemma_absorb_one_byte(acc: u64, bytes: Seq<u8>)
    requires
        bytes.len() == 1,
    ensures
        absorb(acc, bytes) == absorb_byte(acc, bytes[0]),
{
    reveal_with_fuel(absorb, 2);
}

proof fn lemma_absorb_two_bytes(acc: u64, bytes: Seq<u8>)
    requires
        bytes.len() == 2,
    ensures
        absorb(acc, bytes) == absorb_byte(absorb_byte(acc, bytes[0]), bytes[1]),
{
    lemma_absorb_one_byte(absorb_byte(acc, bytes[0]), bytes.skip(1));
}

proof fn lemma_absorb_four_bytes(acc: u64, bytes: Seq<u8>)
    requires
        bytes.len() == 4,
    ensures
        absorb(acc, bytes) == absorb_word32(acc, le_word32(bytes)),
{
    reveal_with_fuel(absorb, 2);
}

proof fn lemma_absorb_eight_bytes(acc: u64, bytes: Seq<u8>)
    requires
        bytes.len() == 8,
    ensures
        absorb(acc, bytes) == absorb_word64(acc, le_word64(bytes)),
{
    reveal_with_fuel(absorb, 2);
}

/// Hashes the one-byte key `v` under `seed`.
pub fn hash8(seed: u64, v: u8) -> (h: u64)
    ensures
        h == digest(seed, seq![v]),
{
    let mut hash = seed.wrapping_add(P5).wrapping_add(1);
    hash = rotate_left_64(hash ^ (v as u64).wrapping_mul(P5), 11).wrapping_mul(P1);
    proof {
        lemma_absorb_one_byte(seed.wrapping_add(P5).wrapping_add(1), seq![v]);
    }
    finalize(hash)
}

/// Hashes the two bytes of `v`, least significant first, under `seed`.
pub fn hash16(seed: u64, v: u16) -> (h: u64)
    ensures
        h == digest(seed, le_bytes_u16(v)),
{
    let mut hash = seed.wrapping_add(P5).wrapping_add(2);
    hash = rotate_left_64(hash ^ ((v & 0xFF) as u64).wrapping_mul(P5), 11).wrapping_mul(P1);
    hash = rotate_left_64(hash ^ ((v >> 8) as u64).wrapping_mul(P5), 11).wrapping_mul(P1);
    proof {
        lemma_le_bytes_u16(v);
        lemma_absorb_two_bytes(seed.wrapping_add(P5).wrapping_add(2), le_bytes_u16(v));
    }
    finalize(hash)
}

/// Hashes the four bytes of `v`, least significant first, under `seed`.
pub fn hash32(seed: u64, v: u32) -> (h: u64)
    ensures
        h == digest(seed, le_bytes_u32(v)),
{
    let mut hash = seed.wrapping_add(P5).wrapping_add(4);
    hash = rotate_left_64(hash ^ (v as u64).wrapping_mul(P1), 23).wrapping_mul(P2).wrapping_add(P3);
    proof {
        lemma_le_word32_of_bytes(v);
        lemma_absorb_four_bytes(seed.wrapping_add(P5).wrapping_add(4), le_bytes_u32(v));
    }
    finalize(hash)
}

/// Hashes the eight bytes of `v`, least significant first, under `seed`.
pub fn hash64(seed: u64, v: u64) -> (h: u64)
    ensures
        h == digest(seed, le_bytes_u64(v)),
{
    let mut hash = seed.wrapping_add(P5).wrapping_add(8);
    hash = rotate_left_64(
        hash ^ rotate_left_64(v.wrapping_mul(P2), 31).wrapping_mul(P1),
        27,
    ).wrapping_mul(P1).wrapping_add(P4);
    proof {
        lemma_le_bytes_u64_halves(v);
        lemma_absorb_eight_bytes(seed.wrapping_add(P5).wrapping_add(8), le_bytes_u64(v));
    }
    finalize(hash)
}

} // verus!
