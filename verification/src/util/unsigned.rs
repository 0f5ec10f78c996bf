//! Stepping an unsigned integer by a sign.
//!
//! Adding a sign to an unsigned integer moves it one up or one down, and
//! goes round at the ends of the type's range.
use vstd::prelude::*;
use vstd::std_specs::ops::{AddSpecImpl, SubSpecImpl};
use core::ops::{Add, Neg, Sub};
use super::NonZeroSignum;

verus! {

impl AddSpecImpl<NonZeroSignum> for u8 {
    open spec fn obeys_add_spec() -> bool {
        true
    }

    open spec fn add_req(self, rhs: NonZeroSignum) -> bool {
        true
    }

    open spec fn add_spec(self, rhs: NonZeroSignum) -> u8 {
        ((self + rhs@) % 0x100) as u8
    }
}

impl Add<NonZeroSignum> for u8 {
    type Output = u8;

    #[inline(always)]
    fn add(self, rhs: NonZeroSignum) -> (r: u8) {
        self.wrapping_add_signed(i8::from(rhs))
    }
}

impl AddSpecImpl<u8> for NonZeroSignum {
    open spec fn obeys_add_spec() -> bool {
        true
    }

    open spec fn add_req(self, rhs: u8) -> bool {
        true
    }

    open spec fn add_spec(self, rhs: u8) -> u8 {
        ((self@ + rhs) % 0x100) as u8
    }
}

impl Add<u8> for NonZeroSignum {
    type Output = u8;

    #[inline(always)]
    fn add(self, rhs: u8) -> (r: u8) {
        rhs.add(self)
    }
}

impl SubSpecImpl<NonZeroSignum> for u8 {
    open spec fn obeys_sub_spec() -> bool {
        true
    }

    open spec fn sub_req(self, rhs: NonZeroSignum) -> bool {
        true
    }

    open spec fn sub_spec(self, rhs: NonZeroSignum) -> u8 {
        ((self - rhs@) % 0x100) as u8
    }
}

impl Sub<NonZeroSignum> for u8 {
    type Output = u8;

    #[inline(always)]
    fn sub(self, rhs: NonZeroSignum) -> (r: u8) {
        self.wrapping_add_signed(i8::from(rhs.neg()))
    }
}

impl AddSpecImpl<NonZeroSignum> for u16 {
    open spec fn obeys_add_spec() -> bool {
        true
    }

    open spec fn add_req(self, rhs: NonZeroSignum) -> bool {
        true
    }

    open spec fn add_spec(self, rhs: NonZeroSignum) -> u16 {
        ((self + rhs@) % 0x1_0000) as u16
    }
}

impl Add<NonZeroSignum> for u16 {
    type Output = u16;

    #[inline(always)]
    fn add(self, rhs: NonZeroSignum) -> (r: u16) {
        self.wrapping_add_signed(i16::from(rhs))
    }
}

impl AddSpecImpl<u16> for NonZeroSignum {
    open spec fn obeys_add_spec() -> bool {
        true
    }

    open spec fn add_req(self, rhs: u16) -> bool {
        true
    }

    open spec fn add_spec(self, rhs: u16) -> u16 {
        ((self@ + rhs) % 0x1_0000) as u16
    }
}

impl Add<u16> for NonZeroSignum {
    type Output = u16;

    #[inline(always)]
    fn add(self, rhs: u16) -> (r: u16) {
        rhs.add(self)
    }
}

impl SubSpecImpl<NonZeroSignum> for u16 {
    open spec fn obeys_sub_spec() -> bool {
        true
    }

    open spec fn sub_req(self, rhs: NonZeroSignum) -> bool {
        true
    }

    open spec fn sub_spec(self, rhs: NonZeroSignum) -> u16 {
        ((self - rhs@) % 0x1_0000) as u16
    }
}

impl Sub<NonZeroSignum> for u16 {
    type Output = u16;

    #[inline(always)]
    fn sub(self, rhs: NonZeroSignum) -> (r: u16) {
        self.wrapping_add_signed(i16::from(rhs.neg()))
    }
}

impl AddSpecImpl<NonZeroSignum> for u32 {
    open spec fn obeys_add_spec() -> bool {
        true
    }

    open spec fn add_req(self, rhs: NonZeroSignum) -> bool {
        true
    }

    open spec fn add_spec(self, rhs: NonZeroSignum) -> u32 {
        ((self + rhs@) % 0x1_0000_0000) as u32
    }
}

impl Add<NonZeroSignum> for u32 {
    type Output = u32;

    #[inline(always)]
    fn add(self, rhs: NonZeroSignum) -> (r: u32) {
        self.wrapping_add_signed(i32::from(rhs))
    }
}

impl AddSpecImpl<u32> for NonZeroSignum {
    open spec fn obeys_add_spec() -> bool {
        true
    }

    open spec fn add_req(self, rhs: u32) -> bool {
        true
    }

    open spec fn add_spec(self, rhs: u32) -> u32 {
        ((self@ + rhs) % 0x1_0000_0000) as u32
    }
}

impl Add<u32> for NonZeroSignum {
    type Output = u32;

    #[inline(always)]
    fn add(self, rhs: u32) -> (r: u32) {
        rhs.add(self)
    }
}

impl SubSpecImpl<NonZeroSignum> for u32 {
    open spec fn obeys_sub_spec() -> bool {
        true
    }

    open spec fn sub_req(self, rhs: NonZeroSignum) -> bool {
        true
    }

    open spec fn sub_spec(self, rhs: NonZeroSignum) -> u32 {
        ((self - rhs@) % 0x1_0000_0000) as u32
    }
}

impl Sub<NonZeroSignum> for u32 {
    type Output = u32;

    #[inline(always)]
    fn sub(self, rhs: NonZeroSignum) -> (r: u32) {
        self.wrapping_add_signed(i32::from(rhs.neg()))
    }
}

impl AddSpecImpl<NonZeroSignum> for u64 {
    open spec fn obeys_add_spec() -> bool {
        true
    }

    open spec fn add_req(self, rhs: NonZeroSignum) -> bool {
        true
    }

    open spec fn add_spec(self, rhs: NonZeroSignum) -> u64 {
        ((self + rhs@) % 0x1_0000_0000_0000_0000) as u64
    }
}

impl Add<NonZeroSignum> for u64 {
    type Output = u64;

    #[inline(always)]
    fn add(self, rhs: NonZeroSignum) -> (r: u64) {
        self.wrapping_add_signed(i64::from(rhs))
    }
}

impl AddSpecImpl<u64> for NonZeroSignum {
    open spec fn obeys_add_spec() -> bool {
        true
    }

    open spec fn add_req(self, rhs: u64) -> bool {
        true
    }

    open spec fn add_spec(self, rhs: u64) -> u64 {
        ((self@ + rhs) % 0x1_0000_0000_0000_0000) as u64
    }
}

impl Add<u64> for NonZeroSignum {
    type Output = u64;

    #[inline(always)]
    fn add(self, rhs: u64) -> (r: u64) {
        rhs.add(self)
    }
}

impl SubSpecImpl<NonZeroSignum> for u64 {
    open spec fn obeys_sub_spec() -> bool {
        true
    }

    open spec fn sub_req(self, rhs: NonZeroSignum) -> bool {
        true
    }

    open spec fn sub_spec(self, rhs: NonZeroSignum) -> u64 {
        ((self - rhs@) % 0x1_0000_0000_0000_0000) as u64
    }
}

impl Sub<NonZeroSignum> for u64 {
    type Output = u64;

    #[inline(always)]
    fn sub(self, rhs: NonZeroSignum) -> (r: u64) {
        self.wrapping_add_signed(i64::from(rhs.neg()))
    }
}

} // verus!
