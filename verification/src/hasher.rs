//! Hash functions for keys of one fixed-width unsigned integer.
//!
//! Each family hashes the little-endian encoding of the key exactly as its
//! byte-stream algorithm would hash a buffer of that length.
use vstd::prelude::*;
use crate::bits::{le_bytes_u16, le_bytes_u32, le_bytes_u64};

pub mod murmur2a;
pub mod xx_hasher_32;
pub mod xx_hasher_64;

verus! {

/// A family of hash functions from a seed of type `S` and a key of 8, 16, 32
/// or 64 bits to a hash of type `H`.
pub trait HasherTrait<S, H> {
    /// What the family's byte-stream algorithm makes of `key` under `seed`.
    spec fn digest(seed: S, key: Seq<u8>) -> H;

    fn hash_u8(seed: S, v: u8) -> (h: H)
        ensures
            h == Self::digest(seed, seq![v]),
    ;

    fn hash_u16(seed: S, v: u16) -> (h: H)
        ensures
            h == Self::digest(seed, le_bytes_u16(v)),
    ;

    fn hash_u32(seed: S, v: u32) -> (h: H)
        ensures
            h == Self::digest(seed, le_bytes_u32(v)),
    ;

    fn hash_u64(seed: S, v: u64) -> (h: H)
        ensures
            h == Self::digest(seed, le_bytes_u64(v)),
    ;
}

/// The family used where no other is asked for.
pub type Hasher = HasherXX32;

#[derive(Copy, Clone)]
pub struct HasherXX32();

#[derive(Copy, Clone)]
pub struct HasherXX64();

#[derive(Copy, Clone)]
pub struct HasherMurMur2A();

impl HasherTrait<u32, u32> for HasherXX32 {
    open spec fn digest(seed: u32, key: Seq<u8>) -> u32 {
        xx_hasher_32::digest(seed, key)
    }

    #[inline(always)]
    fn hash_u8(seed: u32, v: u8) -> (h: u32) {
        xx_hasher_32::hash8(seed, v)
    }

    #[inline(always)]
    fn hash_u16(seed: u32, v: u16) -> (h: u32) {
        xx_hasher_32::hash16(seed, v)
    }

    #[inline(always)]
    fn hash_u32(seed: u32, v: u32) -> (h: u32) {
        xx_hasher_32::hash32(seed, v)
    }

    #[inline(always)]
    fn hash_u64(seed: u32, v: u64) -> (h: u32) {
        xx_hasher_32::hash64(seed, v)
    }
}

impl HasherTrait<u64, u64> for HasherXX64 {
    open spec fn digest(seed: u64, key: Seq<u8>) -> u64 {
        xx_hasher_64::digest(seed, key)
    }

    #[inline(always)]
    fn hash_u8(seed: u64, v: u8) -> (h: u64) {
        xx_hasher_64::hash8(seed, v)
    }

    #[inline(always)]
    fn hash_u16(seed: u64, v: u16) -> (h: u64) {
        xx_hasher_64::hash16(seed, v)
    }

    #[inline(always)]
    fn hash_u32(seed: u64, v: u32) -> (h: u64) {
        xx_hasher_64::hash32(seed, v)
    }

    #[inline(always)]
    fn hash_u64(seed: u64, v: u64) -> (h: u64) {
        xx_hasher_64::hash64(seed, v)
    }
}

impl HasherTrait<u32, u32> for HasherMurMur2A {
    open spec fn digest(seed: u32, key: Seq<u8>) -> u32 {
        murmur2a::digest(seed, key)
    }

    #[inline(always)]
    fn hash_u8(seed: u32, v: u8) -> (h: u32) {
        murmur2a::hash8(seed, v)
    }

    #[inline(always)]
    fn hash_u16(seed: u32, v: u16) -> (h: u32) {
        murmur2a::hash16(seed, v)
    }

    #[inline(always)]
    fn hash_u32(seed: u32, v: u32) -> (h: u32) {
        murmur2a::hash32(seed, v)
    }

    #[inline(always)]
    fn hash_u64(seed: u32, v: u64) -> (h: u32) {
        murmur2a::hash64(seed, v)
    }
}

/// A hash is a function of the seed and the key alone: equal seeds and equal
/// keys give equal hashes, whichever family is chosen and whenever it is
/// asked.
pub proof fn lemma_hash_deterministic<S, H, T: HasherTrait<S, H>>(
    seed_a: S,
    key_a: Seq<u8>,
    seed_b: S,
    key_b: Seq<u8>,
)
    requires
        seed_a == seed_b,
        key_a == key_b,
    ensures
        T::digest(seed_a, key_a) == T::digest(seed_b, key_b),
{
}

} // verus!
