use hllpp::estimator::{EstimateTerms, Format, HLLPP};
use hllpp::universalhash::UniversalHashFunction;

const SEED_A: u128 = 0x9e3779b97f4a7c15f39cc0605cedc835;
const SEED_B: u128 = 0x2545f4914f6cdd1d8a5cd789635d2dff;

fn reference() -> HLLPP {
    HLLPP::with_hash_function(14, 25, UniversalHashFunction::new(64, SEED_A, SEED_B)).unwrap()
}

/// Linear counting over `2^sparse_precision` keys of which `distinct_count`
/// are taken.
fn sparse_estimate(sparse_precision: usize, distinct_count: usize) -> f64 {
    if distinct_count == 0 {
        return 0.0;
    }
    let keys = (1u128 << sparse_precision) as f64;
    keys * (keys / (keys - distinct_count as f64)).ln()
}

#[test]
fn fresh_estimate_is_zero() {
    let estimator = HLLPP::new(14, 25).unwrap();
    match estimator.compute_estimates() {
        EstimateTerms::Sparse { sparse_precision, distinct_count } => {
            assert_eq!(distinct_count, 0);
            assert_eq!(sparse_estimate(sparse_precision, distinct_count), 0.0);
        },
        EstimateTerms::Normal { .. } => panic!("a fresh estimator is sparse"),
    }
}

#[test]
fn thousand_elements_stay_sparse() {
    let mut estimator = reference();
    for x in 0u64..1000 {
        estimator.read_data(x);
        assert_eq!(estimator.format(), Format::SPARSE);
    }
    let terms = estimator.compute_estimates();
    assert_eq!(terms, EstimateTerms::Sparse { sparse_precision: 25, distinct_count: 1000 });
    let estimate = sparse_estimate(25, 1000);
    assert!((estimate - 1000.0).abs() / 1000.0 < 0.03);
    assert!((estimate - 1000.0149014556741).abs() < 1e-6);
}

#[test]
fn thousand_elements_with_drawn_seeds_stay_sparse() {
    let mut estimator = HLLPP::new(14, 25).unwrap();
    for x in 0u64..1000 {
        estimator.read_data(x);
    }
    assert_eq!(estimator.format(), Format::SPARSE);
    match estimator.compute_estimates() {
        EstimateTerms::Sparse { sparse_precision, distinct_count } => {
            assert_eq!(sparse_precision, 25);
            assert!(1 <= distinct_count && distinct_count <= 1000);
        },
        EstimateTerms::Normal { .. } => panic!("1000 keys do not promote"),
    }
}

#[test]
fn two_hundred_thousand_elements_promote() {
    let mut estimator = reference();
    let mut promoted_by: Option<u64> = None;
    for x in 0u64..200000 {
        estimator.read_data(x);
        if promoted_by.is_none() && estimator.format() == Format::NORMAL {
            promoted_by = Some(x);
        }
        if promoted_by.is_some() {
            assert_eq!(estimator.format(), Format::NORMAL);
        }
    }
    // 6 * 16384 = 98304 keys fit; the element that brings one more promotes
    assert_eq!(promoted_by, Some(98304));
    assert_eq!(estimator.buckets().len(), 16384);
    assert_eq!(&estimator.buckets()[..8], &[4u8, 5, 4, 5, 4, 4, 5, 4]);
    assert_eq!(estimator.buckets().iter().max(), Some(&15u8));
    assert_eq!(
        estimator.compute_estimates(),
        EstimateTerms::Normal {
            precision: 14,
            empty_buckets: 0,
            inverse_power_sum: 18865402635719586873344
        }
    );
}

#[test]
fn sparse_count_just_before_promotion_is_the_capacity() {
    let mut estimator = reference();
    for x in 0u64..98304 {
        estimator.read_data(x);
    }
    assert_eq!(estimator.format(), Format::SPARSE);
    assert_eq!(
        estimator.compute_estimates(),
        EstimateTerms::Sparse { sparse_precision: 25, distinct_count: 98304 }
    );
    // reading what was read does not promote
    for x in 0u64..1000 {
        estimator.read_data(x);
    }
    assert_eq!(estimator.format(), Format::SPARSE);
    estimator.read_data(98304);
    assert_eq!(estimator.format(), Format::NORMAL);
}

#[test]
fn promotion_with_drawn_seeds_happens_once_the_capacity_is_exceeded() {
    let mut estimator = HLLPP::new(4, 12).unwrap();
    let mut last_count = 0usize;
    for x in 0u64..5000 {
        estimator.read_data(x);
        match estimator.compute_estimates() {
            EstimateTerms::Sparse { distinct_count, .. } => {
                assert!(distinct_count <= 96);
                assert!(distinct_count >= last_count);
                last_count = distinct_count;
            },
            EstimateTerms::Normal { precision, empty_buckets, inverse_power_sum } => {
                assert_eq!(last_count, 96);
                assert_eq!(precision, 4);
                assert!(empty_buckets <= 16);
                assert!(inverse_power_sum <= 16u128 << 64);
            },
        }
    }
}
