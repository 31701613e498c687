//! Draws from a generator: raw words, integers of a half-open range, and the
//! numerators of 53-bit fractions.

use crate::clock::system_time_random;
use crate::xorshift::{next_state, output, Generator};
use std::ops::Range;
use vstd::arithmetic::div_mod::{
    lemma_fundamental_div_mod, lemma_fundamental_div_mod_converse, lemma_mod_decreases,
    lemma_small_mod,
};
use vstd::prelude::*;

verus! {

/// The number of values that a 53-bit numerator can take, 2^53: a drawn
/// numerator over this denominator is a fraction in `[0, 1)`.
pub const FLOAT_DENOMINATOR: u64 = 0x20_0000_0000_0000;

/// The low 64 bits of a clock sample.
pub open spec fn seed_word(sample: u128) -> int {
    sample as int % 0x1_0000_0000_0000_0000
}

/// A draw that gave `raw` and took the generator from `before` to `after`.
///
/// Every draw is one step from some state. Where `before` is seeded, that
/// state is `before` itself. Where it is not, the clock chose the state, and
/// no more is known of the draw than that it is a step.
pub open spec fn drew(before: Generator, after: Generator, raw: u64) -> bool {
    &&& exists|from: Generator| after == #[trigger] next_state(from) && raw == output(from)
    &&& before.state0 != 0 ==> after == next_state(before) && raw == output(before)
}

/// The low 32 bits of `raw`, read as a signed word in two's complement.
pub open spec fn signed_low_word(raw: u64) -> int {
    let low: int = raw as int % 0x1_0000_0000;
    if low < 0x8000_0000 {
        low
    } else {
        low - 0x1_0000_0000
    }
}

/// The distance of the signed low word of `raw` from zero, between 0 and
/// 2^31, both included: the most negative word has the magnitude 2^31.
pub open spec fn magnitude(raw: u64) -> int {
    let word: int = signed_low_word(raw);
    if word < 0 {
        -word
    } else {
        word
    }
}

/// The integer of `[start, end)` that the raw word `raw` stands for: the
/// magnitude is reduced modulo the width of the range and added to `start`.
///
/// The reduction is not uniform: wherever the width does not divide the
/// number of magnitudes, the low end of the range is reached by one magnitude
/// more than the high end.
pub open spec fn range_value(raw: u64, start: i32, end: i32) -> int {
    start + magnitude(raw) % (end - start)
}

/// The numerator that the raw word `raw` stands for: its top 53 bits.
pub open spec fn float_numerator(raw: u64) -> int {
    raw as int / 0x800
}

/// A range without any integer in it, as it was asked for.
#[derive(Clone, Copy, Debug, PartialEq, Eq)]
pub struct EmptyRange {
    pub start: i32,
    pub end: i32,
}

/// Every raw word stands for an integer of the range.
pub proof fn lemma_range_value_in_range(raw: u64, start: i32, end: i32)
    requires
        start < end,
    ensures
        start <= range_value(raw, start, end) < end,
{
}

/// Every integer of a range is reached: some raw word stands for it, as long
/// as it lies no more than 2^31 above `start`, the largest magnitude there is.
pub proof fn lemma_range_value_reaches(start: i32, end: i32, value: i32)
    requires
        start <= value < end,
        value - start <= 0x8000_0000,
    ensures
        exists|raw: u64| range_value(raw, start, end) == value,
{
    let distance: int = value - start;
    let raw: u64 = distance as u64;
    assert(raw as int % 0x1_0000_0000 == distance);
    assert(magnitude(raw) == distance);
    assert(distance % (end - start) == distance) by {
        lemma_small_mod(distance as nat, (end - start) as nat);
    }
    assert(range_value(raw, start, end) == value);
}

/// The reduction favours the low end of a range: wherever a raw word stands
/// for a value, the word whose magnitude is less by `down` stands for the
/// value that is less by `down`, as far down as `start`. So a value of the
/// range is never reached by more magnitudes than a lower one.
pub proof fn lemma_range_value_favours_low(raw: u64, start: i32, end: i32, down: int)
    requires
        start < end,
        0 <= down <= range_value(raw, start, end) - start,
    ensures
        exists|lower: u64|
            magnitude(lower) == magnitude(raw) - down && range_value(lower, start, end)
                == range_value(raw, start, end) - down,
{
    let width: int = end - start;
    let size: int = magnitude(raw);
    let rest: int = size % width;
    assert(down <= rest <= size) by {
        lemma_mod_decreases(size as nat, width as nat);
    }
    let lower: u64 = (size - down) as u64;
    assert(lower as int % 0x1_0000_0000 == size - down);
    assert(magnitude(lower) == size - down);
    assert((size - down) % width == rest - down) by {
        lemma_fundamental_div_mod(size, width);
        assert(width * (size / width) == (size / width) * width) by (nonlinear_arith);
        lemma_fundamental_div_mod_converse(size - down, width, size / width, rest - down);
    }
    assert(range_value(lower, start, end) == range_value(raw, start, end) - down);
}

/// Every numerator lies below the denominator.
pub proof fn lemma_float_numerator_in_range(raw: u64)
    ensures
        0 <= float_numerator(raw) < FLOAT_DENOMINATOR,
{
}

/// Every number below the denominator is the numerator of some raw word.
pub proof fn lemma_float_numerator_reaches(numerator: u64)
    requires
        numerator < FLOAT_DENOMINATOR,
    ensures
        exists|raw: u64| float_numerator(raw) == numerator,
{
    let raw: u64 = (numerator * 0x800) as u64;
    assert(float_numerator(raw) == numerator);
}

impl Generator {
    /// Seeds the generator with the low 64 bits of two samples.
    pub fn seed(&mut self, sample0: u128, sample1: u128)
        ensures
            final(self).state0 == seed_word(sample0),
            final(self).state1 == seed_word(sample1),
    {
        assert(sample0 as u64 == sample0 % 0x1_0000_0000_0000_0000) by (bit_vector);
        assert(sample1 as u64 == sample1 % 0x1_0000_0000_0000_0000) by (bit_vector);
        self.state0 = #[verifier::truncate] (sample0 as u64);
        self.state1 = #[verifier::truncate] (sample1 as u64);
    }
}

/// Draws a raw word. An unseeded generator first seeds itself from two
/// samples of the clock; then the generator takes one step.
pub fn random_u64(generator: &mut Generator) -> (raw: u64)
    ensures
        drew(*old(generator), *final(generator), raw),
{
    if generator.state0 == 0 {
        let sample0: u128 = system_time_random();
        let sample1: u128 = system_time_random();
        generator.seed(sample0, sample1);
    }
    let ghost from: Generator = *generator;
    let raw: u64 = generator.step();
    assert(*generator == next_state(from) && raw == output(from));
    raw
}

/// The integer of `range` that the raw word `raw` stands for. The range must
/// hold an integer.
pub fn int_in_range(raw: u64, range: Range<i32>) -> (value: i32)
    requires
        range.start < range.end,
    ensures
        value == range_value(raw, range.start, range.end),
        range.start <= value < range.end,
{
    let word: i32 = #[verifier::truncate] (raw as i32);
    assert(word == signed_low_word(raw)) by {
        let low: u64 = raw % 0x1_0000_0000;
        assert(low < 0x8000_0000 ==> raw as i32 == low) by (bit_vector)
            requires
                low == raw % 0x1_0000_0000,
        ;
        assert(low >= 0x8000_0000 ==> raw as i32 == low - 0x1_0000_0000) by (bit_vector)
            requires
                low == raw % 0x1_0000_0000,
        ;
    }
    let size: i64 = if word < 0 {
        -(word as i64)
    } else {
        word as i64
    };
    let width: i64 = range.end as i64 - range.start as i64;
    let value: i64 = range.start as i64 + size % width;
    value as i32
}

/// Draws an integer of the half-open range `range`.
///
/// The range must hold an integer: `try_random_int_range` takes any range and
/// refuses an empty one.
pub fn random_int_range(generator: &mut Generator, range: Range<i32>) -> (value: i32)
    requires
        range.start < range.end,
    ensures
        range.start <= value < range.end,
        exists|raw: u64| #[trigger]
            drew(*old(generator), *final(generator), raw) && value == range_value(
                raw,
                range.start,
                range.end,
            ),
{
    let raw: u64 = random_u64(generator);
    int_in_range(raw, range)
}

/// Draws an integer of the half-open range `range`, or refuses a range that
/// holds none and leaves the generator as it was.
pub fn try_random_int_range(generator: &mut Generator, range: Range<i32>) -> (drawn: Result<
    i32,
    EmptyRange,
>)
    ensures
        drawn is Ok <==> range.start < range.end,
        drawn matches Ok(value) ==> range.start <= value < range.end && exists|raw: u64| #[trigger]
            drew(*old(generator), *final(generator), raw) && value == range_value(
                raw,
                range.start,
                range.end,
            ),
        drawn matches Err(refused) ==> refused.start == range.start && refused.end == range.end
            && *final(generator) == *old(generator),
{
    if range.start < range.end {
        Ok(random_int_range(generator, range))
    } else {
        Err(EmptyRange { start: range.start, end: range.end })
    }
}

/// The numerator that the raw word `raw` stands for.
pub fn to_float_numerator(raw: u64) -> (numerator: u64)
    ensures
        numerator == float_numerator(raw),
        numerator < FLOAT_DENOMINATOR,
{
    assert(raw >> 11 == raw / 0x800) by (bit_vector);
    raw >> 11
}

/// Draws the numerator of a fraction in `[0, 1)` whose denominator is
/// `FLOAT_DENOMINATOR`.
pub fn random_float_numerator(generator: &mut Generator) -> (numerator: u64)
    ensures
        numerator < FLOAT_DENOMINATOR,
        exists|raw: u64| #[trigger]
            drew(*old(generator), *final(generator), raw) && numerator == float_numerator(raw),
{
    let raw: u64 = random_u64(generator);
    to_float_numerator(raw)
}

} // verus!
