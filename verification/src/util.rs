//! A sign that is never zero, and the integer step of the fast inverse
//! square root.
use vstd::prelude::*;
use vstd::std_specs::cmp::PartialOrdSpecImpl;
use vstd::std_specs::ops::NegSpecImpl;
use core::cmp::Ordering;
use core::ops::Neg;

mod signed;
mod unsigned;

verus! {

/// The constant from which half the bit pattern is taken.
pub const MAGIC_NUMBER: u32 = 0x5f3759df;

/// The bit pattern of positive infinity in single precision. The positive
/// finite numbers are the patterns strictly between zero and this one.
pub const INFINITY_BITS: u32 = 0x7f800000;

/// The bit pattern of the first estimate of `1/sqrt(x)`, where `bits` is the
/// bit pattern of `x`: the magic number less half the pattern, wrapping.
pub open spec fn inverse_sqrt_estimate(bits: u32) -> u32 {
    MAGIC_NUMBER.wrapping_sub(bits >> 1)
}

/// Computes the bit pattern of the first estimate of `1/sqrt(x)` from the bit
/// pattern of the single-precision number `x`. One Newton step on the
/// estimate, `y * (1.5 - 0.5 * x * y * y)`, gives the approximation.
///
/// Every pattern is accepted. For a positive finite `x` the estimate is
/// again positive and finite, and it does not grow when `x` grows.
pub fn quick_inverse_sqrt_bits(bits: u32) -> (estimate: u32)
    ensures
        estimate == inverse_sqrt_estimate(bits),
        0 < bits < INFINITY_BITS ==> estimate == MAGIC_NUMBER - bits / 2,
        0 < bits < INFINITY_BITS ==> 0 < estimate < INFINITY_BITS,
{
    proof {
        lemma_estimate_of_positive_finite(bits);
    }
    MAGIC_NUMBER.wrapping_sub(bits >> 1)
}

/// On the pattern of a positive finite number the subtraction does not wrap,
/// and the estimate is the pattern of a positive finite number.
pub proof fn lemma_estimate_of_positive_finite(bits: u32)
    ensures
        0 < bits < INFINITY_BITS ==> inverse_sqrt_estimate(bits) == MAGIC_NUMBER - bits / 2,
        0 < bits < INFINITY_BITS ==> 0 < inverse_sqrt_estimate(bits) < INFINITY_BITS,
{
    assert(bits >> 1 == bits / 2) by (bit_vector);
}

/// Among positive finite numbers, a larger argument never has a larger
/// estimate.
pub proof fn lemma_estimate_is_antitone(a: u32, b: u32)
    requires
        0 < a <= b < INFINITY_BITS,
    ensures
        inverse_sqrt_estimate(a) >= inverse_sqrt_estimate(b),
{
    lemma_estimate_of_positive_finite(a);
    lemma_estimate_of_positive_finite(b);
}

/// Either `+1` or `-1`.
#[derive(Copy, Clone, PartialEq, Eq, Structural, Ord)]
pub struct NonZeroSignum(i8);

impl View for NonZeroSignum {
    type V = int;

    closed spec fn view(&self) -> int {
        self.0 as int
    }
}

impl NonZeroSignum {
    #[verifier::type_invariant]
    spec fn is_unit(self) -> bool {
        self.0 == 1 || self.0 == -1
    }

    /// The sign `+1`.
    pub fn positive() -> (r: NonZeroSignum)
        ensures
            r@ == 1,
    {
        NonZeroSignum(1)
    }

    /// The sign `-1`.
    pub fn negative() -> (r: NonZeroSignum)
        ensures
            r@ == -1,
    {
        NonZeroSignum(-1)
    }

    /// Whether the sign is `+1`.
    #[inline(always)]
    pub fn is_positive(&self) -> (b: bool)
        ensures
            b <==> self@ == 1,
            b <==> self@ > 0,
    {
        proof {
            use_type_invariant(self);
        }
        self.0 > 0
    }

    /// Whether the sign is `-1`.
    #[inline(always)]
    pub fn is_negative(&self) -> (b: bool)
        ensures
            b <==> self@ == -1,
            b <==> self@ < 0,
    {
        proof {
            use_type_invariant(self);
        }
        self.0 < 0
    }
}

impl NegSpecImpl for NonZeroSignum {
    open spec fn obeys_neg_spec() -> bool {
        true
    }

    open spec fn neg_req(self) -> bool {
        true
    }

    closed spec fn neg_spec(self) -> NonZeroSignum {
        NonZeroSignum((-self.0) as i8)
    }
}

impl Neg for NonZeroSignum {
    type Output = NonZeroSignum;

    /// The other sign.
    fn neg(self) -> (r: NonZeroSignum)
        ensures
            r@ == -self@,
    {
        proof {
            use_type_invariant(self);
        }
        NonZeroSignum(-self.0)
    }
}

impl PartialOrdSpecImpl for NonZeroSignum {
    open spec fn obeys_partial_cmp_spec() -> bool {
        true
    }

    open spec fn partial_cmp_spec(&self, other: &NonZeroSignum) -> Option<Ordering> {
        if self@ < other@ {
            Some(Ordering::Less)
        } else if self@ > other@ {
            Some(Ordering::Greater)
        } else {
            Some(Ordering::Equal)
        }
    }
}

impl PartialOrd for NonZeroSignum {
    #[inline(always)]
    fn partial_cmp(&self, other: &NonZeroSignum) -> (r: Option<Ordering>) {
        if self.0 < other.0 {
            Some(Ordering::Less)
        } else if self.0 > other.0 {
            Some(Ordering::Greater)
        } else {
            Some(Ordering::Equal)
        }
    }
}

} // verus!
