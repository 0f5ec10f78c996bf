//! Arithmetic and comparison between a sign and the signed integers.
//!
//! A sign stands for `+1` or `-1`. Sums, differences and products are exact:
//! each asks that the mathematical result fit the integer type.
use vstd::prelude::*;
use vstd::std_specs::cmp::{PartialEqSpecImpl, PartialOrdSpecImpl};
use vstd::std_specs::convert::FromSpecImpl;
use vstd::std_specs::ops::{AddSpecImpl, DivSpecImpl, MulSpecImpl, SubSpecImpl};
use core::cmp::Ordering;
use core::ops::{Add, Div, Mul, Sub};
use super::NonZeroSignum;

verus! {

/// The product of a unit and a number is the number or its opposite.
proof fn lemma_unit_product(s: int, x: int)
    requires
        s == 1 || s == -1,
    ensures
        s == 1 ==> s * x == x && x * s == x,
        s == -1 ==> s * x == -x && x * s == -x,
{
    assert(1 * x == x && x * 1 == x && (-1) * x == -x && x * (-1) == -x) by (nonlinear_arith);
}

impl FromSpecImpl<NonZeroSignum> for i8 {
    open spec fn obeys_from_spec() -> bool {
        true
    }

    open spec fn from_spec(v: NonZeroSignum) -> i8 {
        v@ as i8
    }
}

impl From<NonZeroSignum> for i8 {
    /// The sign as a number, `1` or `-1`.
    #[inline(always)]
    fn from(v: NonZeroSignum) -> (r: i8)
        ensures
            r == 1 || r == -1,
    {
        proof {
            use_type_invariant(v);
        }
        v.0
    }
}

impl MulSpecImpl<i8> for NonZeroSignum {
    open spec fn obeys_mul_spec() -> bool {
        true
    }

    open spec fn mul_req(self, rhs: i8) -> bool {
        i8::MIN <= self@ * rhs <= i8::MAX
    }

    open spec fn mul_spec(self, rhs: i8) -> i8 {
        (self@ * rhs) as i8
    }
}

impl Mul<i8> for NonZeroSignum {
    type Output = i8;

    #[inline(always)]
    fn mul(self, rhs: i8) -> (r: i8) {
        let s: i8 = i8::from(self);
        proof {
            lemma_unit_product(s as int, rhs as int);
        }
        s * rhs
    }
}

impl MulSpecImpl<NonZeroSignum> for i8 {
    open spec fn obeys_mul_spec() -> bool {
        true
    }

    open spec fn mul_req(self, rhs: NonZeroSignum) -> bool {
        i8::MIN <= self * rhs@ <= i8::MAX
    }

    open spec fn mul_spec(self, rhs: NonZeroSignum) -> i8 {
        (self * rhs@) as i8
    }
}

impl Mul<NonZeroSignum> for i8 {
    type Output = i8;

    #[inline(always)]
    fn mul(self, rhs: NonZeroSignum) -> (r: i8) {
        let s: i8 = i8::from(rhs);
        proof {
            lemma_unit_product(s as int, self as int);
        }
        self * s
    }
}

/// Dividing by a unit is multiplying by it.
impl DivSpecImpl<NonZeroSignum> for i8 {
    open spec fn obeys_div_spec() -> bool {
        true
    }

    open spec fn div_req(self, rhs: NonZeroSignum) -> bool {
        i8::MIN <= self * rhs@ <= i8::MAX
    }

    open spec fn div_spec(self, rhs: NonZeroSignum) -> i8 {
        (self * rhs@) as i8
    }
}

impl Div<NonZeroSignum> for i8 {
    type Output = i8;

    #[inline(always)]
    fn div(self, rhs: NonZeroSignum) -> (r: i8) {
        let s: i8 = i8::from(rhs);
        proof {
            lemma_unit_product(s as int, self as int);
        }
        self * s
    }
}

impl AddSpecImpl<i8> for NonZeroSignum {
    open spec fn obeys_add_spec() -> bool {
        true
    }

    open spec fn add_req(self, rhs: i8) -> bool {
        i8::MIN <= self@ + rhs <= i8::MAX
    }

    open spec fn add_spec(self, rhs: i8) -> i8 {
        (self@ + rhs) as i8
    }
}

impl Add<i8> for NonZeroSignum {
    type Output = i8;

    #[inline(always)]
    fn add(self, rhs: i8) -> (r: i8) {
        let s: i8 = i8::from(self);
        s + rhs
    }
}

impl AddSpecImpl<NonZeroSignum> for i8 {
    open spec fn obeys_add_spec() -> bool {
        true
    }

    open spec fn add_req(self, rhs: NonZeroSignum) -> bool {
        i8::MIN <= self + rhs@ <= i8::MAX
    }

    open spec fn add_spec(self, rhs: NonZeroSignum) -> i8 {
        (self + rhs@) as i8
    }
}

impl Add<NonZeroSignum> for i8 {
    type Output = i8;

    #[inline(always)]
    fn add(self, rhs: NonZeroSignum) -> (r: i8) {
        let s: i8 = i8::from(rhs);
        self + s
    }
}

impl SubSpecImpl<NonZeroSignum> for i8 {
    open spec fn obeys_sub_spec() -> bool {
        true
    }

    open spec fn sub_req(self, rhs: NonZeroSignum) -> bool {
        i8::MIN <= self - rhs@ <= i8::MAX
    }

    open spec fn sub_spec(self, rhs: NonZeroSignum) -> i8 {
        (self - rhs@) as i8
    }
}

impl Sub<NonZeroSignum> for i8 {
    type Output = i8;

    #[inline(always)]
    fn sub(self, rhs: NonZeroSignum) -> (r: i8) {
        let s: i8 = i8::from(rhs);
        self - s
    }
}

impl PartialEqSpecImpl<i8> for NonZeroSignum {
    open spec fn obeys_eq_spec() -> bool {
        true
    }

    open spec fn eq_spec(&self, other: &i8) -> bool {
        self@ == *other
    }
}

impl PartialEq<i8> for NonZeroSignum {
    #[inline(always)]
    fn eq(&self, other: &i8) -> (r: bool) {
        i8::from(*self) == *other
    }
}

impl PartialEqSpecImpl<NonZeroSignum> for i8 {
    open spec fn obeys_eq_spec() -> bool {
        true
    }

    open spec fn eq_spec(&self, other: &NonZeroSignum) -> bool {
        *self == other@
    }
}

impl PartialEq<NonZeroSignum> for i8 {
    #[inline(always)]
    fn eq(&self, other: &NonZeroSignum) -> (r: bool) {
        *self == i8::from(*other)
    }
}

impl PartialOrdSpecImpl<i8> for NonZeroSignum {
    open spec fn obeys_partial_cmp_spec() -> bool {
        true
    }

    open spec fn partial_cmp_spec(&self, other: &i8) -> Option<Ordering> {
        if self@ < *other {
            Some(Ordering::Less)
        } else if self@ > *other {
            Some(Ordering::Greater)
        } else {
            Some(Ordering::Equal)
        }
    }
}

impl PartialOrd<i8> for NonZeroSignum {
    #[inline(always)]
    fn partial_cmp(&self, other: &i8) -> (r: Option<Ordering>) {
        let s: i8 = i8::from(*self);
        if s < *other {
            Some(Ordering::Less)
        } else if s > *other {
            Some(Ordering::Greater)
        } else {
            Some(Ordering::Equal)
        }
    }
}

impl PartialOrdSpecImpl<NonZeroSignum> for i8 {
    open spec fn obeys_partial_cmp_spec() -> bool {
        true
    }

    open spec fn partial_cmp_spec(&self, other: &NonZeroSignum) -> Option<Ordering> {
        if *self < other@ {
            Some(Ordering::Less)
        } else if *self > other@ {
            Some(Ordering::Greater)
        } else {
            Some(Ordering::Equal)
        }
    }
}

impl PartialOrd<NonZeroSignum> for i8 {
    #[inline(always)]
    fn partial_cmp(&self, other: &NonZeroSignum) -> (r: Option<Ordering>) {
        let s: i8 = i8::from(*other);
        if *self < s {
            Some(Ordering::Less)
        } else if *self > s {
            Some(Ordering::Greater)
        } else {
            Some(Ordering::Equal)
        }
    }
}

impl FromSpecImpl<NonZeroSignum> for i16 {
    open spec fn obeys_from_spec() -> bool {
        true
    }

    open spec fn from_spec(v: NonZeroSignum) -> i16 {
        v@ as i16
    }
}

impl From<NonZeroSignum> for i16 {
    /// The sign as a number, `1` or `-1`.
    #[inline(always)]
    fn from(v: NonZeroSignum) -> (r: i16)
        ensures
            r == 1 || r == -1,
    {
        proof {
            use_type_invariant(v);
        }
        v.0 as i16
    }
}

impl MulSpecImpl<i16> for NonZeroSignum {
    open spec fn obeys_mul_spec() -> bool {
        true
    }

    open spec fn mul_req(self, rhs: i16) -> bool {
        i16::MIN <= self@ * rhs <= i16::MAX
    }

    open spec fn mul_spec(self, rhs: i16) -> i16 {
        (self@ * rhs) as i16
    }
}

impl Mul<i16> for NonZeroSignum {
    type Output = i16;

    #[inline(always)]
    fn mul(self, rhs: i16) -> (r: i16) {
        let s: i16 = i16::from(self);
        proof {
            lemma_unit_product(s as int, rhs as int);
        }
        s * rhs
    }
}

impl MulSpecImpl<NonZeroSignum> for i16 {
    open spec fn obeys_mul_spec() -> bool {
        true
    }

    open spec fn mul_req(self, rhs: NonZeroSignum) -> bool {
        i16::MIN <= self * rhs@ <= i16::MAX
    }

    open spec fn mul_spec(self, rhs: NonZeroSignum) -> i16 {
        (self * rhs@) as i16
    }
}

impl Mul<NonZeroSignum> for i16 {
    type Output = i16;

    #[inline(always)]
    fn mul(self, rhs: NonZeroSignum) -> (r: i16) {
        let s: i16 = i16::from(rhs);
        proof {
            lemma_unit_product(s as int, self as int);
        }
        self * s
    }
}

/// Dividing by a unit is multiplying by it.
impl DivSpecImpl<NonZeroSignum> for i16 {
    open spec fn obeys_div_spec() -> bool {
        true
    }

    open spec fn div_req(self, rhs: NonZeroSignum) -> bool {
        i16::MIN <= self * rhs@ <= i16::MAX
    }

    open spec fn div_spec(self, rhs: NonZeroSignum) -> i16 {
        (self * rhs@) as i16
    }
}

impl Div<NonZeroSignum> for i16 {
    type Output = i16;

    #[inline(always)]
    fn div(self, rhs: NonZeroSignum) -> (r: i16) {
        let s: i16 = i16::from(rhs);
        proof {
            lemma_unit_product(s as int, self as int);
        }
        self * s
    }
}

impl AddSpecImpl<i16> for NonZeroSignum {
    open spec fn obeys_add_spec() -> bool {
        true
    }

    open spec fn add_req(self, rhs: i16) -> bool {
        i16::MIN <= self@ + rhs <= i16::MAX
    }

    open spec fn add_spec(self, rhs: i16) -> i16 {
        (self@ + rhs) as i16
    }
}

impl Add<i16> for NonZeroSignum {
    type Output = i16;

    #[inline(always)]
    fn add(self, rhs: i16) -> (r: i16) {
        let s: i16 = i16::from(self);
        s + rhs
    }
}

impl AddSpecImpl<NonZeroSignum> for i16 {
    open spec fn obeys_add_spec() -> bool {
        true
    }

    open spec fn add_req(self, rhs: NonZeroSignum) -> bool {
        i16::MIN <= self + rhs@ <= i16::MAX
    }

    open spec fn add_spec(self, rhs: NonZeroSignum) -> i16 {
        (self + rhs@) as i16
    }
}

impl Add<NonZeroSignum> for i16 {
    type Output = i16;

    #[inline(always)]
    fn add(self, rhs: NonZeroSignum) -> (r: i16) {
        let s: i16 = i16::from(rhs);
        self + s
    }
}

impl SubSpecImpl<NonZeroSignum> for i16 {
    open spec fn obeys_sub_spec() -> bool {
        true
    }

    open spec fn sub_req(self, rhs: NonZeroSignum) -> bool {
        i16::MIN <= self - rhs@ <= i16::MAX
    }

    open spec fn sub_spec(self, rhs: NonZeroSignum) -> i16 {
        (self - rhs@) as i16
    }
}

impl Sub<NonZeroSignum> for i16 {
    type Output = i16;

    #[inline(always)]
    fn sub(self, rhs: NonZeroSignum) -> (r: i16) {
        let s: i16 = i16::from(rhs);
        self - s
    }
}

impl PartialEqSpecImpl<i16> for NonZeroSignum {
    open spec fn obeys_eq_spec() -> bool {
        true
    }

    open spec fn eq_spec(&self, other: &i16) -> bool {
        self@ == *other
    }
}

impl PartialEq<i16> for NonZeroSignum {
    #[inline(always)]
    fn eq(&self, other: &i16) -> (r: bool) {
        i16::from(*self) == *other
    }
}

impl PartialEqSpecImpl<NonZeroSignum> for i16 {
    open spec fn obeys_eq_spec() -> bool {
        true
    }

    open spec fn eq_spec(&self, other: &NonZeroSignum) -> bool {
        *self == other@
    }
}

impl PartialEq<NonZeroSignum> for i16 {
    #[inline(always)]
    fn eq(&self, other: &NonZeroSignum) -> (r: bool) {
        *self == i16::from(*other)
    }
}

impl PartialOrdSpecImpl<i16> for NonZeroSignum {
    open spec fn obeys_partial_cmp_spec() -> bool {
        true
    }

    open spec fn partial_cmp_spec(&self, other: &i16) -> Option<Ordering> {
        if self@ < *other {
            Some(Ordering::Less)
        } else if self@ > *other {
            Some(Ordering::Greater)
        } else {
            Some(Ordering::Equal)
        }
    }
}

impl PartialOrd<i16> for NonZeroSignum {
    #[inline(always)]
    fn partial_cmp(&self, other: &i16) -> (r: Option<Ordering>) {
        let s: i16 = i16::from(*self);
        if s < *other {
            Some(Ordering::Less)
        } else if s > *other {
            Some(Ordering::Greater)
        } else {
            Some(Ordering::Equal)
        }
    }
}

impl PartialOrdSpecImpl<NonZeroSignum> for i16 {
    open spec fn obeys_partial_cmp_spec() -> bool {
        true
    }

    open spec fn partial_cmp_spec(&self, other: &NonZeroSignum) -> Option<Ordering> {
        if *self < other@ {
            Some(Ordering::Less)
        } else if *self > other@ {
            Some(Ordering::Greater)
        } else {
            Some(Ordering::Equal)
        }
    }
}

impl PartialOrd<NonZeroSignum> for i16 {
    #[inline(always)]
    fn partial_cmp(&self, other: &NonZeroSignum) -> (r: Option<Ordering>) {
        let s: i16 = i16::from(*other);
        if *self < s {
            Some(Ordering::Less)
        } else if *self > s {
            Some(Ordering::Greater)
        } else {
            Some(Ordering::Equal)
        }
    }
}

impl FromSpecImpl<NonZeroSignum> for i32 {
    open spec fn obeys_from_spec() -> bool {
        true
    }

    open spec fn from_spec(v: NonZeroSignum) -> i32 {
        v@ as i32
    }
}

impl From<NonZeroSignum> for i32 {
    /// The sign as a number, `1` or `-1`.
    #[inline(always)]
    fn from(v: NonZeroSignum) -> (r: i32)
        ensures
            r == 1 || r == -1,
    {
        proof {
            use_type_invariant(v);
        }
        v.0 as i32
    }
}

impl MulSpecImpl<i32> for NonZeroSignum {
    open spec fn obeys_mul_spec() -> bool {
        true
    }

    open spec fn mul_req(self, rhs: i32) -> bool {
        i32::MIN <= self@ * rhs <= i32::MAX
    }

    open spec fn mul_spec(self, rhs: i32) -> i32 {
        (self@ * rhs) as i32
    }
}

impl Mul<i32> for NonZeroSignum {
    type Output = i32;

    #[inline(always)]
    fn mul(self, rhs: i32) -> (r: i32) {
        let s: i32 = i32::from(self);
        proof {
            lemma_unit_product(s as int, rhs as int);
        }
        s * rhs
    }
}

impl MulSpecImpl<NonZeroSignum> for i32 {
    open spec fn obeys_mul_spec() -> bool {
        true
    }

    open spec fn mul_req(self, rhs: NonZeroSignum) -> bool {
        i32::MIN <= self * rhs@ <= i32::MAX
    }

    open spec fn mul_spec(self, rhs: NonZeroSignum) -> i32 {
        (self * rhs@) as i32
    }
}

impl Mul<NonZeroSignum> for i32 {
    type Output = i32;

    #[inline(always)]
    fn mul(self, rhs: NonZeroSignum) -> (r: i32) {
        let s: i32 = i32::from(rhs);
        proof {
            lemma_unit_product(s as int, self as int);
        }
        self * s
    }
}

/// Dividing by a unit is multiplying by it.
impl DivSpecImpl<NonZeroSignum> for i32 {
    open spec fn obeys_div_spec() -> bool {
        true
    }

    open spec fn div_req(self, rhs: NonZeroSignum) -> bool {
        i32::MIN <= self * rhs@ <= i32::MAX
    }

    open spec fn div_spec(self, rhs: NonZeroSignum) -> i32 {
        (self * rhs@) as i32
    }
}

impl Div<NonZeroSignum> for i32 {
    type Output = i32;

    #[inline(always)]
    fn div(self, rhs: NonZeroSignum) -> (r: i32) {
        let s: i32 = i32::from(rhs);
        proof {
            lemma_unit_product(s as int, self as int);
        }
        self * s
    }
}

impl AddSpecImpl<i32> for NonZeroSignum {
    open spec fn obeys_add_spec() -> bool {
        true
    }

    open spec fn add_req(self, rhs: i32) -> bool {
        i32::MIN <= self@ + rhs <= i32::MAX
    }

    open spec fn add_spec(self, rhs: i32) -> i32 {
        (self@ + rhs) as i32
    }
}

impl Add<i32> for NonZeroSignum {
    type Output = i32;

    #[inline(always)]
    fn add(self, rhs: i32) -> (r: i32) {
        let s: i32 = i32::from(self);
        s + rhs
    }
}

impl AddSpecImpl<NonZeroSignum> for i32 {
    open spec fn obeys_add_spec() -> bool {
        true
    }

    open spec fn add_req(self, rhs: NonZeroSignum) -> bool {
        i32::MIN <= self + rhs@ <= i32::MAX
    }

    open spec fn add_spec(self, rhs: NonZeroSignum) -> i32 {
        (self + rhs@) as i32
    }
}

impl Add<NonZeroSignum> for i32 {
    type Output = i32;

    #[inline(always)]
    fn add(self, rhs: NonZeroSignum) -> (r: i32) {
        let s: i32 = i32::from(rhs);
        self + s
    }
}

impl SubSpecImpl<NonZeroSignum> for i32 {
    open spec fn obeys_sub_spec() -> bool {
        true
    }

    open spec fn sub_req(self, rhs: NonZeroSignum) -> bool {
        i32::MIN <= self - rhs@ <= i32::MAX
    }

    open spec fn sub_spec(self, rhs: NonZeroSignum) -> i32 {
        (self - rhs@) as i32
    }
}

impl Sub<NonZeroSignum> for i32 {
    type Output = i32;

    #[inline(always)]
    fn sub(self, rhs: NonZeroSignum) -> (r: i32) {
        let s: i32 = i32::from(rhs);
        self - s
    }
}

impl PartialEqSpecImpl<i32> for NonZeroSignum {
    open spec fn obeys_eq_spec() -> bool {
        true
    }

    open spec fn eq_spec(&self, other: &i32) -> bool {
        self@ == *other
    }
}

impl PartialEq<i32> for NonZeroSignum {
    #[inline(always)]
    fn eq(&self, other: &i32) -> (r: bool) {
        i32::from(*self) == *other
    }
}

impl PartialEqSpecImpl<NonZeroSignum> for i32 {
    open spec fn obeys_eq_spec() -> bool {
        true
    }

    open spec fn eq_spec(&self, other: &NonZeroSignum) -> bool {
        *self == other@
    }
}

impl PartialEq<NonZeroSignum> for i32 {
    #[inline(always)]
    fn eq(&self, other: &NonZeroSignum) -> (r: bool) {
        *self == i32::from(*other)
    }
}

impl PartialOrdSpecImpl<i32> for NonZeroSignum {
    open spec fn obeys_partial_cmp_spec() -> bool {
        true
    }

    open spec fn partial_cmp_spec(&self, other: &i32) -> Option<Ordering> {
        if self@ < *other {
            Some(Ordering::Less)
        } else if self@ > *other {
            Some(Ordering::Greater)
        } else {
            Some(Ordering::Equal)
        }
    }
}

impl PartialOrd<i32> for NonZeroSignum {
    #[inline(always)]
    fn partial_cmp(&self, other: &i32) -> (r: Option<Ordering>) {
        let s: i32 = i32::from(*self);
        if s < *other {
            Some(Ordering::Less)
        } else if s > *other {
            Some(Ordering::Greater)
        } else {
            Some(Ordering::Equal)
        }
    }
}

impl PartialOrdSpecImpl<NonZeroSignum> for i32 {
    open spec fn obeys_partial_cmp_spec() -> bool {
        true
    }

    open spec fn partial_cmp_spec(&self, other: &NonZeroSignum) -> Option<Ordering> {
        if *self < other@ {
            Some(Ordering::Less)
        } else if *self > other@ {
            Some(Ordering::Greater)
        } else {
            Some(Ordering::Equal)
        }
    }
}

impl PartialOrd<NonZeroSignum> for i32 {
    #[inline(always)]
    fn partial_cmp(&self, other: &NonZeroSignum) -> (r: Option<Ordering>) {
        let s: i32 = i32::from(*other);
        if *self < s {
            Some(Ordering::Less)
        } else if *self > s {
            Some(Ordering::Greater)
        } else {
            Some(Ordering::Equal)
        }
    }
}

impl FromSpecImpl<NonZeroSignum> for i64 {
    open spec fn obeys_from_spec() -> bool {
        true
    }

    open spec fn from_spec(v: NonZeroSignum) -> i64 {
        v@ as i64
    }
}

impl From<NonZeroSignum> for i64 {
    /// The sign as a number, `1` or `-1`.
    #[inline(always)]
    fn from(v: NonZeroSignum) -> (r: i64)
        ensures
            r == 1 || r == -1,
    {
        proof {
            use_type_invariant(v);
        }
        v.0 as i64
    }
}

impl MulSpecImpl<i64> for NonZeroSignum {
    open spec fn obeys_mul_spec() -> bool {
        true
    }

    open spec fn mul_req(self, rhs: i64) -> bool {
        i64::MIN <= self@ * rhs <= i64::MAX
    }

    open spec fn mul_spec(self, rhs: i64) -> i64 {
        (self@ * rhs) as i64
    }
}

impl Mul<i64> for NonZeroSignum {
    type Output = i64;

    #[inline(always)]
    fn mul(self, rhs: i64) -> (r: i64) {
        let s: i64 = i64::from(self);
        proof {
            lemma_unit_product(s as int, rhs as int);
        }
        s * rhs
    }
}

impl MulSpecImpl<NonZeroSignum> for i64 {
    open spec fn obeys_mul_spec() -> bool {
        true
    }

    open spec fn mul_req(self, rhs: NonZeroSignum) -> bool {
        i64::MIN <= self * rhs@ <= i64::MAX
    }

    open spec fn mul_spec(self, rhs: NonZeroSignum) -> i64 {
        (self * rhs@) as i64
    }
}

impl Mul<NonZeroSignum> for i64 {
    type Output = i64;

    #[inline(always)]
    fn mul(self, rhs: NonZeroSignum) -> (r: i64) {
        let s: i64 = i64::from(rhs);
        proof {
            lemma_unit_product(s as int, self as int);
        }
        self * s
    }
}

/// Dividing by a unit is multiplying by it.
impl DivSpecImpl<NonZeroSignum> for i64 {
    open spec fn obeys_div_spec() -> bool {
        true
    }

    open spec fn div_req(self, rhs: NonZeroSignum) -> bool {
        i64::MIN <= self * rhs@ <= i64::MAX
    }

    open spec fn div_spec(self, rhs: NonZeroSignum) -> i64 {
        (self * rhs@) as i64
    }
}

impl Div<NonZeroSignum> for i64 {
    type Output = i64;

    #[inline(always)]
    fn div(self, rhs: NonZeroSignum) -> (r: i64) {
        let s: i64 = i64::from(rhs);
        proof {
            lemma_unit_product(s as int, self as int);
        }
        self * s
    }
}

impl AddSpecImpl<i64> for NonZeroSignum {
    open spec fn obeys_add_spec() -> bool {
        true
    }

    open spec fn add_req(self, rhs: i64) -> bool {
        i64::MIN <= self@ + rhs <= i64::MAX
    }

    open spec fn add_spec(self, rhs: i64) -> i64 {
        (self@ + rhs) as i64
    }
}

impl Add<i64> for NonZeroSignum {
    type Output = i64;

    #[inline(always)]
    fn add(self, rhs: i64) -> (r: i64) {
        let s: i64 = i64::from(self);
        s + rhs
    }
}

impl AddSpecImpl<NonZeroSignum> for i64 {
    open spec fn obeys_add_spec() -> bool {
        true
    }

    open spec fn add_req(self, rhs: NonZeroSignum) -> bool {
        i64::MIN <= self + rhs@ <= i64::MAX
    }

    open spec fn add_spec(self, rhs: NonZeroSignum) -> i64 {
        (self + rhs@) as i64
    }
}

impl Add<NonZeroSignum> for i64 {
    type Output = i64;

    #[inline(always)]
    fn add(self, rhs: NonZeroSignum) -> (r: i64) {
        let s: i64 = i64::from(rhs);
        self + s
    }
}

impl SubSpecImpl<NonZeroSignum> for i64 {
    open spec fn obeys_sub_spec() -> bool {
        true
    }

    open spec fn sub_req(self, rhs: NonZeroSignum) -> bool {
        i64::MIN <= self - rhs@ <= i64::MAX
    }

    open spec fn sub_spec(self, rhs: NonZeroSignum) -> i64 {
        (self - rhs@) as i64
    }
}

impl Sub<NonZeroSignum> for i64 {
    type Output = i64;

    #[inline(always)]
    fn sub(self, rhs: NonZeroSignum) -> (r: i64) {
        let s: i64 = i64::from(rhs);
        self - s
    }
}

impl PartialEqSpecImpl<i64> for NonZeroSignum {
    open spec fn obeys_eq_spec() -> bool {
        true
    }

    open spec fn eq_spec(&self, other: &i64) -> bool {
        self@ == *other
    }
}

impl PartialEq<i64> for NonZeroSignum {
    #[inline(always)]
    fn eq(&self, other: &i64) -> (r: bool) {
        i64::from(*self) == *other
    }
}

impl PartialEqSpecImpl<NonZeroSignum> for i64 {
    open spec fn obeys_eq_spec() -> bool {
        true
    }

    open spec fn eq_spec(&self, other: &NonZeroSignum) -> bool {
        *self == other@
    }
}

impl PartialEq<NonZeroSignum> for i64 {
    #[inline(always)]
    fn eq(&self, other: &NonZeroSignum) -> (r: bool) {
        *self == i64::from(*other)
    }
}

impl PartialOrdSpecImpl<i64> for NonZeroSignum {
    open spec fn obeys_partial_cmp_spec() -> bool {
        true
    }

    open spec fn partial_cmp_spec(&self, other: &i64) -> Option<Ordering> {
        if self@ < *other {
            Some(Ordering::Less)
        } else if self@ > *other {
            Some(Ordering::Greater)
        } else {
            Some(Ordering::Equal)
        }
    }
}

impl PartialOrd<i64> for NonZeroSignum {
    #[inline(always)]
    fn partial_cmp(&self, other: &i64) -> (r: Option<Ordering>) {
        let s: i64 = i64::from(*self);
        if s < *other {
            Some(Ordering::Less)
        } else if s > *other {
            Some(Ordering::Greater)
        } else {
            Some(Ordering::Equal)
        }
    }
}

impl PartialOrdSpecImpl<NonZeroSignum> for i64 {
    open spec fn obeys_partial_cmp_spec() -> bool {
        true
    }

    open spec fn partial_cmp_spec(&self, other: &NonZeroSignum) -> Option<Ordering> {
        if *self < other@ {
            Some(Ordering::Less)
        } else if *self > other@ {
            Some(Ordering::Greater)
        } else {
            Some(Ordering::Equal)
        }
    }
}

impl PartialOrd<NonZeroSignum> for i64 {
    #[inline(always)]
    fn partial_cmp(&self, other: &NonZeroSignum) -> (r: Option<Ordering>) {
        let s: i64 = i64::from(*other);
        if *self < s {
            Some(Ordering::Less)
        } else if *self > s {
            Some(Ordering::Greater)
        } else {
            Some(Ordering::Equal)
        }
    }
}

} // verus!
