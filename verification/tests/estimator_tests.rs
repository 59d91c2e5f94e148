use hllpp::addressing::EncodedHash;
use hllpp::error::HllppError;
use hllpp::estimator::{EstimateTerms, Format, HLLPP};
use hllpp::universalhash::UniversalHashFunction;

/// With multiplier 2^64, summand 0 and 64 result bits, an element is its own
/// hash value.
fn identity() -> UniversalHashFunction {
    UniversalHashFunction::new(64, 1u128 << 64, 0)
}

/// An element whose four high bits are `key`.
fn element(key: u64, low: u64) -> u64 {
    (key << 60) | low
}

/// Sixteen elements with sixteen sparse keys under a sparse precision of 4.
fn sixteen() -> Vec<u64> {
    (0u64..16).map(|k| element(k, 1u64 << (3 * k))).collect()
}

fn small() -> HLLPP {
    HLLPP::with_hash_function(1, 4, identity()).unwrap()
}

#[test]
fn identity_hasher_is_the_identity() {
    let hasher = identity();
    for x in [0u64, 1, 0x8800_0000_0000_0000, u64::MAX] {
        assert_eq!(hasher.hash64(x), x);
    }
}

#[test]
fn new_rejects_a_sparse_precision_that_is_not_larger() {
    assert!(matches!(HLLPP::new(14, 14), Err(HllppError::SparsePrecisionTooSmall)));
    assert!(matches!(HLLPP::new(14, 13), Err(HllppError::SparsePrecisionTooSmall)));
    assert!(matches!(HLLPP::new(0, 0), Err(HllppError::SparsePrecisionTooSmall)));
    assert!(matches!(HLLPP::new(70, 65), Err(HllppError::SparsePrecisionTooSmall)));
    assert!(matches!(
        HLLPP::with_hash_function(25, 14, identity()),
        Err(HllppError::SparsePrecisionTooSmall)
    ));
}

#[test]
fn new_rejects_precisions_that_are_too_large() {
    assert!(matches!(HLLPP::new(14, 65), Err(HllppError::PrecisionTooLarge)));
    assert!(matches!(HLLPP::new(63, 64), Err(HllppError::PrecisionTooLarge)));
    assert!(matches!(HLLPP::new(64, 65), Err(HllppError::PrecisionTooLarge)));
    assert!(matches!(
        HLLPP::with_hash_function(3, usize::MAX, identity()),
        Err(HllppError::PrecisionTooLarge)
    ));
}

#[test]
fn new_accepts_the_reference_precisions() {
    let estimator = HLLPP::new(14, 25).unwrap();
    assert_eq!(estimator.precision(), 14);
    assert_eq!(estimator.sparse_precision(), 25);
    assert_eq!(estimator.format(), Format::SPARSE);
    assert!(HLLPP::new(0, 1).is_ok());
    assert!(HLLPP::new(0, 64).is_ok());
    assert!(HLLPP::new(20, 64).is_ok());
}

#[test]
fn fresh_estimator_is_sparse_and_empty() {
    let estimator = HLLPP::new(14, 25).unwrap();
    assert_eq!(estimator.format(), Format::SPARSE);
    assert!(estimator.buckets().is_empty());
    assert_eq!(
        estimator.compute_estimates(),
        EstimateTerms::Sparse { sparse_precision: 25, distinct_count: 0 }
    );
    // asking does not change anything
    assert_eq!(
        estimator.compute_estimates(),
        EstimateTerms::Sparse { sparse_precision: 25, distinct_count: 0 }
    );
}

#[test]
fn sparse_read_stores_the_record_under_its_key() {
    let mut estimator = small();
    estimator.read_data(0x1000_0000_0000_0008);
    assert_eq!(estimator.format(), Format::SPARSE);
    assert_eq!(
        estimator.sparse_entry(1),
        Some(EncodedHash { sparse_leading_zeros: 56, normal_leading_zeros: 2, normal_bucket_idx: 0 })
    );
    assert_eq!(estimator.sparse_entry(0), None);
    assert_eq!(
        estimator.compute_estimates(),
        EstimateTerms::Sparse { sparse_precision: 4, distinct_count: 1 }
    );
}

#[test]
fn sparse_read_of_a_colliding_key_overwrites() {
    let mut estimator = small();
    estimator.read_data(0x8000_0000_0000_0001);
    assert_eq!(
        estimator.sparse_entry(8),
        Some(EncodedHash { sparse_leading_zeros: 59, normal_leading_zeros: 62, normal_bucket_idx: 1 })
    );
    estimator.read_data(0x8800_0000_0000_0000);
    assert_eq!(
        estimator.sparse_entry(8),
        Some(EncodedHash { sparse_leading_zeros: 0, normal_leading_zeros: 3, normal_bucket_idx: 1 })
    );
    assert_eq!(
        estimator.compute_estimates(),
        EstimateTerms::Sparse { sparse_precision: 4, distinct_count: 1 }
    );
}

#[test]
fn promotion_happens_on_the_first_key_beyond_six_per_bucket() {
    let elements = sixteen();
    let mut estimator = small();
    for (i, x) in elements.iter().take(12).enumerate() {
        estimator.read_data(*x);
        assert_eq!(estimator.format(), Format::SPARSE);
        assert_eq!(
            estimator.compute_estimates(),
            EstimateTerms::Sparse { sparse_precision: 4, distinct_count: i + 1 }
        );
    }
    // keys that are there already do not promote
    for x in elements.iter().take(12) {
        estimator.read_data(*x);
        assert_eq!(estimator.format(), Format::SPARSE);
    }
    assert_eq!(
        estimator.compute_estimates(),
        EstimateTerms::Sparse { sparse_precision: 4, distinct_count: 12 }
    );
    assert!(estimator.buckets().is_empty());
    // the thirteenth key does
    estimator.read_data(elements[12]);
    assert_eq!(estimator.format(), Format::NORMAL);
    assert_eq!(estimator.buckets(), &vec![62u8, 38]);
    assert_eq!(estimator.sparse_entry(0), None);
    assert_eq!(estimator.sparse_entry(12), None);
}

#[test]
fn promotion_folds_every_record_by_maximum() {
    let mut estimator = small();
    let elements = sixteen();
    for x in elements.iter().take(13) {
        estimator.read_data(*x);
    }
    // bucket 0 gets the runs 62, 2, 1, 1, 0, 0, 0, 0 and bucket 1 the runs 38, 2, 1, 1, 0
    assert_eq!(estimator.buckets(), &vec![62u8, 38]);
    assert_eq!(
        estimator.compute_estimates(),
        EstimateTerms::Normal { precision: 1, empty_buckets: 0, inverse_power_sum: 67108868 }
    );
}

#[test]
fn promotion_is_not_reversed() {
    let mut estimator = small();
    for x in sixteen() {
        estimator.read_data(x);
    }
    assert_eq!(estimator.format(), Format::NORMAL);
    for x in 0u64..100 {
        estimator.read_data(x << 55);
        assert_eq!(estimator.format(), Format::NORMAL);
        assert_eq!(estimator.buckets().len(), 2);
    }
}

#[test]
fn dense_read_merges_by_maximum() {
    let mut estimator = small();
    for x in sixteen() {
        estimator.read_data(x);
    }
    assert_eq!(estimator.buckets(), &vec![62u8, 38]);
    // a shorter run leaves the bucket
    estimator.read_data(element(9, 0));
    assert_eq!(estimator.buckets(), &vec![62u8, 38]);
    // the all-zero residual has the longest run there is
    estimator.read_data(0);
    assert_eq!(estimator.buckets(), &vec![63u8, 38]);
    estimator.read_data(element(15, 0));
    assert_eq!(estimator.buckets(), &vec![63u8, 38]);
    estimator.read_data(1u64 << 63);
    assert_eq!(estimator.buckets(), &vec![63u8, 63]);
    assert_eq!(
        estimator.compute_estimates(),
        EstimateTerms::Normal { precision: 1, empty_buckets: 0, inverse_power_sum: 4 }
    );
}

#[test]
fn dense_terms_count_empty_buckets_and_sum_inverse_powers() {
    // precision 0: one bucket, promoted by the seventh key
    let mut estimator = HLLPP::with_hash_function(0, 4, identity()).unwrap();
    for key in 8u64..15 {
        // every residual has its highest bit set: the run is zero
        estimator.read_data(key << 60);
    }
    assert_eq!(estimator.format(), Format::NORMAL);
    assert_eq!(estimator.buckets(), &vec![0u8]);
    assert_eq!(
        estimator.compute_estimates(),
        EstimateTerms::Normal { precision: 0, empty_buckets: 1, inverse_power_sum: 1u128 << 64 }
    );
    estimator.read_data(0);
    assert_eq!(estimator.buckets(), &vec![64u8]);
    assert_eq!(
        estimator.compute_estimates(),
        EstimateTerms::Normal { precision: 0, empty_buckets: 0, inverse_power_sum: 1 }
    );
}

#[test]
fn reading_an_element_again_changes_nothing() {
    let elements = sixteen();
    // sparse
    let mut estimator = small();
    estimator.read_data(elements[3]);
    let entry = estimator.sparse_entry(3);
    let terms = estimator.compute_estimates();
    estimator.read_data(elements[3]);
    assert_eq!(estimator.sparse_entry(3), entry);
    assert_eq!(estimator.compute_estimates(), terms);
    // the read that promotes, read again
    for x in elements.iter().take(13) {
        estimator.read_data(*x);
    }
    assert_eq!(estimator.format(), Format::NORMAL);
    let buckets = estimator.buckets().clone();
    estimator.read_data(elements[12]);
    assert_eq!(estimator.buckets(), &buckets);
    // dense, with other elements in between
    estimator.read_data(0);
    let buckets = estimator.buckets().clone();
    for x in elements.iter() {
        estimator.read_data(*x);
    }
    estimator.read_data(0);
    assert_eq!(estimator.buckets(), &buckets);
}

#[test]
fn buckets_never_decrease() {
    let mut estimator = HLLPP::with_hash_function(
        4,
        10,
        UniversalHashFunction::new(
            64,
            0x9e3779b97f4a7c15f39cc0605cedc835,
            0x2545f4914f6cdd1d8a5cd789635d2dff,
        ),
    )
    .unwrap();
    let mut before: Vec<u8> = vec![0; 16];
    for x in 0u64..500 {
        estimator.read_data(x);
        if estimator.format() == Format::NORMAL {
            let after = estimator.buckets().clone();
            assert_eq!(after.len(), 16);
            for bucket in 0..16 {
                assert!(before[bucket] <= after[bucket]);
                assert!(after[bucket] <= 60);
            }
            before = after;
        }
    }
    assert_eq!(before, vec![5u8, 4, 5, 4, 6, 4, 7, 5, 9, 5, 4, 5, 4, 6, 4, 7]);
    assert_eq!(
        estimator.compute_estimates(),
        EstimateTerms::Normal {
            precision: 4,
            empty_buckets: 0,
            inverse_power_sum: 10700552714632298496
        }
    );
}

#[test]
fn same_seeds_and_same_elements_give_the_same_state() {
    let make = || {
        HLLPP::with_hash_function(
            4,
            10,
            UniversalHashFunction::new(64, 0x1234_5678_9abc_def1_0fed_cba9_8765_4321, 77),
        )
        .unwrap()
    };
    let mut first = make();
    let mut second = make();
    for x in 0u64..300 {
        first.read_data(x.wrapping_mul(0x9e37_79b9_7f4a_7c15));
        second.read_data(x.wrapping_mul(0x9e37_79b9_7f4a_7c15));
        assert_eq!(first.format(), second.format());
        assert_eq!(first.buckets(), second.buckets());
        assert_eq!(first.compute_estimates(), second.compute_estimates());
    }
    for key in 0u64..1024 {
        assert_eq!(first.sparse_entry(key), second.sparse_entry(key));
    }
    assert_eq!(first.format(), Format::NORMAL);
}

#[test]
fn estimator_keeps_the_hash_function_it_was_given() {
    let hasher = UniversalHashFunction::new(64, 12345, 678);
    let estimator = HLLPP::with_hash_function(14, 25, hasher).unwrap();
    for x in [0u64, 5, u64::MAX] {
        assert_eq!(estimator.hasher().hash64(x), hasher.hash64(x));
    }
}

#[test]
fn new_draws_a_hash_function_of_64_bits() {
    let estimator = HLLPP::new(14, 25).unwrap();
    let hasher = estimator.hasher();
    for x in 0u64..50 {
        assert_eq!(hasher.hash(x), hasher.hash64(x) as u128);
    }
}

#[test]
fn record_that_was_overwritten_is_not_folded() {
    let mut estimator = small();
    // key 8 first holds a run of 62, then one of 3
    estimator.read_data(0x8000_0000_0000_0001);
    estimator.read_data(0x8800_0000_0000_0000);
    // twelve more keys, all with the residual's highest bit set below the key
    for key in [0u64, 1, 2, 3, 4, 5, 6, 7, 9, 10, 11] {
        estimator.read_data(element(key, 1u64 << 59));
        assert_eq!(estimator.format(), Format::SPARSE);
    }
    estimator.read_data(element(12, 1u64 << 59));
    assert_eq!(estimator.format(), Format::NORMAL);
    // bucket 1 holds the longest run among the records of the keys 8 to 12
    assert_eq!(estimator.buckets(), &vec![3u8, 3]);
    // the element whose record was replaced counts again when it is read again
    estimator.read_data(0x8000_0000_0000_0001);
    assert_eq!(estimator.buckets(), &vec![3u8, 62]);
}
