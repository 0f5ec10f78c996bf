//! Quadrant folding for the cosine approximation.
//!
//! An angle reduced to one turn lies in one of four quadrants. In each of
//! them the cosine is, up to its sign, the cosine of an angle of the first
//! quadrant, where the polynomial is accurate.
use vstd::prelude::*;
use crate::util::NonZeroSignum;

verus! {

/// How an angle `a` of one turn is brought back to the first quadrant.
#[derive(Copy, Clone, PartialEq, Eq, Structural, Debug)]
pub enum Reflection {
    /// `a` itself.
    Identity,
    /// `pi - a`.
    FromHalfTurn,
    /// `a - pi`.
    PastHalfTurn,
    /// `2 pi - a`.
    FromFullTurn,
}

/// The reflection to apply to the angle and the sign to give to the cosine
/// of the reflected angle.
#[derive(Copy, Clone)]
pub struct Fold {
    pub reflection: Reflection,
    pub sign: NonZeroSignum,
}

/// The reflection that belongs to a quadrant. An index past the last
/// quadrant is treated as the first quadrant.
pub open spec fn reflection_of(quadrant: u8) -> Reflection {
    if quadrant == 1 {
        Reflection::FromHalfTurn
    } else if quadrant == 2 {
        Reflection::PastHalfTurn
    } else if quadrant == 3 {
        Reflection::FromFullTurn
    } else {
        Reflection::Identity
    }
}

/// The sign of the cosine in a quadrant, as `+1` or `-1`: negative in the
/// second and third quadrants.
pub open spec fn sign_of(quadrant: u8) -> int {
    if quadrant == 1 || quadrant == 2 {
        -1
    } else {
        1
    }
}

pub fn fold_quadrant(quadrant: u8) -> (fold: Fold)
    ensures
        fold.reflection == reflection_of(quadrant),
        fold.sign@ == sign_of(quadrant),
{
    match quadrant {
        1 => Fold { reflection: Reflection::FromHalfTurn, sign: NonZeroSignum::negative() },
        2 => Fold { reflection: Reflection::PastHalfTurn, sign: NonZeroSignum::negative() },
        3 => Fold { reflection: Reflection::FromFullTurn, sign: NonZeroSignum::positive() },
        _ => Fold { reflection: Reflection::Identity, sign: NonZeroSignum::positive() },
    }
}

} // verus!
