//! Allocation-free numeric kernels: small-key hashing, a Middle Square Weyl
//! Sequence generator, a unit sign type, and the integer halves of the fast
//! floating-point approximations.
pub mod bits;
pub mod hasher;
pub mod prng;
pub mod trig;
pub mod util;
