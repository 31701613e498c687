//! Pseudo-random numbers for small programs: an xorshift128+ generator that
//! seeds itself from the system clock, and draws of bounded integers and of
//! 53-bit fractions on top of it.
//!
//! The generator is not cryptographically secure.

pub mod clock;
pub mod random;
pub mod xorshift;

pub use clock::sample_of;
pub use random::{
    int_in_range, random_float_numerator, random_int_range, random_u64, to_float_numerator,
    try_random_int_range, EmptyRange, FLOAT_DENOMINATOR,
};
pub use xorshift::Generator;
