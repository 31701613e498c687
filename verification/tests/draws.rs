use simple_std::{random_float_numerator, random_int_range, Generator, FLOAT_DENOMINATOR};
use std::iter::repeat_with;

fn random_float(generator: &mut Generator) -> f64 {
    (random_float_numerator(generator) as f64) / (FLOAT_DENOMINATOR as f64)
}

#[test]
fn not_equal() {
    let mut generator = Generator::new();
    repeat_with(|| random_float(&mut generator))
        .take(100)
        .collect::<Vec<_>>()
        .windows(2)
        .for_each(|win| assert_ne!(win[0], win[1]));
}

#[test]
fn between_0_1() {
    let mut generator = Generator::new();
    assert!(repeat_with(|| random_float(&mut generator))
        .take(100000)
        .all(|n| n >= 0.0 && n < 1.0))
}

#[test]
fn distributed() {
    let mut generator = Generator::new();
    assert!(repeat_with(|| random_float(&mut generator))
        .take(100000)
        .any(|n| n > 0.999));
    assert!(repeat_with(|| random_float(&mut generator))
        .take(100000)
        .any(|n| n < 0.001));
}

#[test]
fn range_in_range() {
    let mut generator = Generator::new();
    [0..10, 5..15, 1000..1004, (-5)..5, (-10)..(-5)]
        .iter()
        .for_each(|range| {
            assert!(repeat_with(|| random_int_range(&mut generator, range.clone()))
                .take(10000)
                .all(|n| n < range.end && n >= range.start));
        })
}

#[test]
fn distributed_range() {
    let mut generator = Generator::new();
    [0..10, 5..15, 1000..1004, (-5)..5, (-10)..(-5)]
        .iter()
        .for_each(|range| {
            range.clone().for_each(|expected| {
                assert!(repeat_with(|| random_int_range(&mut generator, range.clone()))
                    .take(100000)
                    .any(|n| n == expected));
            });
        })
}

#[test]
fn guessing_game_ends_on_the_hidden_number() {
    let mut generator = Generator::new();
    for _ in 0..1000 {
        let number = random_int_range(&mut generator, 0..100);
        let mut low = 0;
        let mut high = 100;
        let mut guesses = 0;
        loop {
            let guess = low + (high - low) / 2;
            guesses += 1;
            if guess < number {
                low = guess + 1;
            } else if guess > number {
                high = guess;
            } else {
                break;
            }
            assert!(low < high);
        }
        assert!(guesses <= 7);
    }
}

#[test]
fn an_unseeded_generator_seeds_itself_on_the_first_draw() {
    let mut generator = Generator::new();
    assert_eq!(generator, Generator { state0: 0, state1: 0 });
    simple_std::random_u64(&mut generator);
    // A step from the all-zero state would leave it all zero.
    assert_ne!(generator, Generator { state0: 0, state1: 0 });
}

#[test]
fn two_self_seeded_streams_step_by_the_same_rule() {
    let mut generator = Generator::new();
    simple_std::random_u64(&mut generator);
    let mut twin = generator;
    let drawn: Vec<u64> = repeat_with(|| simple_std::random_u64(&mut generator)).take(50).collect();
    let stepped: Vec<u64> = repeat_with(|| twin.step()).take(50).collect();
    assert_eq!(drawn, stepped);
    assert_eq!(generator, twin);
}
