use hllpp::universalhash::{UniversalHashFunction, UniversalHashFunctionsFamily};

const SEED_A: u128 = 0x9e3779b97f4a7c15f39cc0605cedc835;
const SEED_B: u128 = 0x2545f4914f6cdd1d8a5cd789635d2dff;
const INPUT: u64 = 0xdeadbeefcafef00d;

#[test]
fn hash_keeps_the_high_bits_of_the_wrapped_word() {
    let function = UniversalHashFunction::new(64, SEED_A, SEED_B);
    assert_eq!(function.hash(INPUT), 0x576bcf31625f432e);
    assert_eq!(function.hash128(INPUT), 0x576bcf31625f432e);
    assert_eq!(function.hash64(INPUT), 0x576bcf31625f432e);
}

#[test]
fn hash_is_multiply_add_when_nothing_wraps() {
    // 3 * 5 + 7 = 22, all 128 bits kept
    let function = UniversalHashFunction::new(128, 3, 7);
    assert_eq!(function.hash(5), 22);
    // the same word, of which the upper half is zero
    let upper = UniversalHashFunction::new(64, 3, 7);
    assert_eq!(upper.hash(5), 0);
}

#[test]
fn hash_wraps_at_128_bits() {
    // (2^127) * 2 + 9 wraps to 9
    let function = UniversalHashFunction::new(128, 1u128 << 127, 9);
    assert_eq!(function.hash(2), 9);
    // u128::MAX * u64::MAX + u128::MAX = u128::MAX * 2^64, which is -2^64 mod 2^128
    let extreme = UniversalHashFunction::new(128, u128::MAX, u128::MAX);
    assert_eq!(extreme.hash(u64::MAX), u128::MAX - (1u128 << 64) + 1);
}

#[test]
fn hash_width_selects_how_many_bits_stay() {
    let expected: [(usize, u128); 8] = [
        (0, 0x0),
        (1, 0x0),
        (32, 0x576bcf31),
        (33, 0xaed79e62),
        (64, 0x576bcf31625f432e),
        (100, 0x576bcf31625f432e450306ee7),
        (128, 0x576bcf31625f432e450306ee7db808b0),
        (200, 0x576bcf31625f432e450306ee7db808b0),
    ];
    for (bits, hashed) in expected {
        let function = UniversalHashFunction::new(bits, SEED_A, SEED_B);
        assert_eq!(function.hash128(INPUT), hashed, "width {}", bits);
        assert_eq!(function.hash(INPUT), hashed, "width {}", bits);
    }
}

#[test]
fn hash64_is_the_top_64_bits_of_wider_hashes() {
    for bits in [64usize, 100, 128, 200] {
        let function = UniversalHashFunction::new(bits, SEED_A, SEED_B);
        assert_eq!(function.hash64(INPUT), 0x576bcf31625f432e, "width {}", bits);
    }
    let narrow = UniversalHashFunction::new(33, SEED_A, SEED_B);
    assert_eq!(narrow.hash64(INPUT), 0xaed79e62);
    let none = UniversalHashFunction::new(0, SEED_A, SEED_B);
    assert_eq!(none.hash64(INPUT), 0);
}

#[test]
fn hash32_is_the_top_32_bits_of_wider_hashes() {
    for bits in [32usize, 33, 64, 100, 128, 200] {
        let function = UniversalHashFunction::new(bits, SEED_A, SEED_B);
        assert_eq!(function.hash32(INPUT), 0x576bcf31, "width {}", bits);
    }
    let narrow = UniversalHashFunction::new(1, SEED_A, SEED_B);
    assert_eq!(narrow.hash32(INPUT), 0);
}

#[test]
fn zero_multiplier_maps_everything_to_the_summand() {
    let function = UniversalHashFunction::new(128, 0, 41);
    assert_eq!(function.hash(0), 41);
    assert_eq!(function.hash(u64::MAX), 41);
}

#[test]
fn family_hands_its_width_and_the_seeds_to_its_functions() {
    let family = UniversalHashFunctionsFamily::new(64);
    let from_family = family.construct_new_hash_function(SEED_A, SEED_B);
    let direct = UniversalHashFunction::new(64, SEED_A, SEED_B);
    for input in [0u64, 1, 2, INPUT, u64::MAX] {
        assert_eq!(from_family.hash(input), direct.hash(input));
        assert_eq!(from_family.hash64(input), direct.hash64(input));
        assert_eq!(from_family.hash32(input), direct.hash32(input));
    }
}

#[test]
fn random_function_is_consistent_and_stays_within_its_width() {
    let mut family = UniversalHashFunctionsFamily::new(20);
    let function = family.construct_new_hash_function_with_random_seeds();
    for input in 0u64..200 {
        let hashed = function.hash(input);
        assert!(hashed < (1u128 << 20));
        assert_eq!(function.hash(input), hashed);
        assert_eq!(function.hash64(input) as u128, hashed);
        assert_eq!(function.hash32(input) as u128, hashed);
    }
}

#[test]
fn random_functions_differ() {
    let mut family = UniversalHashFunctionsFamily::new(128);
    let first = family.construct_new_hash_function_with_random_seeds();
    let second = family.construct_new_hash_function_with_random_seeds();
    // both seeds of both functions would have to coincide
    assert!((0u64..4).any(|input| first.hash(input) != second.hash(input)));
}
