//! What holds of every estimator, stated over the states that estimators
//! stand for.

use crate::addressing::{
    bucket_index, lemma_bucket_index_bound, lemma_encoded_hash_in_range,
    lemma_leading_zero_run_bound, sparse_key, EncodedHash,
};
use crate::estimator::{
    folded_bucket, is_folded_bucket, longer_run, sparse_capacity, valid_precisions, EstimateTerms,
    Format, HllppState,
};
use crate::universalhash::UniversalHashFunction;
use vstd::arithmetic::power2::*;
use vstd::prelude::*;

verus! {

/// Some value at most `bound` is the fold of a bucket when no record of the
/// bucket has a run longer than `bound`.
proof fn lemma_fold_below(entries: Map<u64, EncodedHash>, bucket: int, bound: u8) -> (value: u8)
    requires
        forall|key: u64|
            #![trigger entries.contains_key(key)]
            entries.contains_key(key) && entries[key].normal_bucket_idx == bucket
                ==> entries[key].normal_leading_zeros <= bound,
    ensures
        value <= bound,
        is_folded_bucket(entries, bucket, value),
    decreases bound,
{
    if bound == 0 {
        0
    } else if exists|key: u64|
        #![trigger entries.contains_key(key)]
        entries.contains_key(key) && entries[key].normal_bucket_idx == bucket
            && entries[key].normal_leading_zeros == bound {
        bound
    } else {
        lemma_fold_below(entries, bucket, (bound - 1) as u8)
    }
}

/// Every bucket has a fold: `folded_bucket` is the longest run among the
/// records of the bucket, or zero where it has none. It is at most `bound`
/// where no record of the bucket has a run longer than `bound`.
pub proof fn lemma_folded_bucket(entries: Map<u64, EncodedHash>, bucket: int, bound: u8)
    requires
        forall|key: u64|
            #![trigger entries.contains_key(key)]
            entries.contains_key(key) && entries[key].normal_bucket_idx == bucket
                ==> entries[key].normal_leading_zeros <= bound,
    ensures
        is_folded_bucket(entries, bucket, folded_bucket(entries, bucket)),
        folded_bucket(entries, bucket) <= bound,
{
    let value = lemma_fold_below(entries, bucket, bound);
    crate::estimator::lemma_folded_bucket_is(entries, bucket, value);
}

/// Folding no records leaves every bucket at zero.
pub proof fn lemma_fold_of_nothing(bucket: int)
    ensures
        folded_bucket(Map::<u64, EncodedHash>::empty(), bucket) == 0,
{
    crate::estimator::lemma_folded_bucket_is(Map::<u64, EncodedHash>::empty(), bucket, 0);
}

/// Folding is max-merging record by record: with one more record under a key
/// that was not there, the bucket of the record holds the longer of its run
/// and what the other records fold to, and every other bucket is as it was.
/// So what a dense estimator would have made of the records that a sparse map
/// holds is what the map folds to.
pub proof fn lemma_fold_of_insert(
    entries: Map<u64, EncodedHash>,
    key: u64,
    encoded: EncodedHash,
    bucket: int,
)
    requires
        !entries.contains_key(key),
    ensures
        folded_bucket(entries.insert(key, encoded), bucket) == if encoded.normal_bucket_idx
            == bucket {
            longer_run(folded_bucket(entries, bucket), encoded.normal_leading_zeros)
        } else {
            folded_bucket(entries, bucket)
        },
{
    let before = folded_bucket(entries, bucket);
    let inserted = entries.insert(key, encoded);
    let after = if encoded.normal_bucket_idx == bucket {
        longer_run(before, encoded.normal_leading_zeros)
    } else {
        before
    };
    lemma_folded_bucket(entries, bucket, u8::MAX);
    assert(is_folded_bucket(inserted, bucket, after)) by {
        assert(inserted.contains_key(key));
        if after != 0 && !(encoded.normal_bucket_idx == bucket && encoded.normal_leading_zeros
            == after) {
            let witness = choose|other: u64|
                #![trigger entries.contains_key(other)]
                entries.contains_key(other) && entries[other].normal_bucket_idx == bucket
                    && entries[other].normal_leading_zeros == before;
            assert(inserted.contains_key(witness));
        }
    }
    crate::estimator::lemma_folded_bucket_is(inserted, bucket, after);
}

/// Reading an element leads from a state that an estimator can be in to
/// another such state, with the same configuration and hash function.
pub proof fn lemma_read_wf(state: HllppState, data: u64)
    requires
        state.wf(),
    ensures
        state.read(data).wf(),
        state.read(data).precision == state.precision,
        state.read(data).sparse_precision == state.sparse_precision,
        state.read(data).hasher == state.hasher,
{
    let hashed = state.hashed(data);
    lemma_bucket_index_bound(hashed, state.precision);
    lemma_leading_zero_run_bound(hashed, state.precision);
    lemma_encoded_hash_in_range(state.precision, state.sparse_precision, hashed);
    match state.format {
        Format::NORMAL => {},
        Format::SPARSE => {
            let inserted = state.inserted(data);
            if state.promotes_on(data) {
                let after = state.read(data);
                assert forall|bucket: int| 0 <= bucket < after.buckets.len() implies #[trigger] after.buckets[bucket]
                    <= 64 - state.precision by {
                    lemma_folded_bucket(inserted, bucket, (64 - state.precision) as u8);
                }
            }
        },
    }
}

/// Reading a sequence of elements leads from a state that an estimator can be
/// in to another such state, with the same configuration and hash function.
pub proof fn lemma_ingest_wf(state: HllppState, data: Seq<u64>)
    requires
        state.wf(),
    ensures
        state.ingest(data).wf(),
        state.ingest(data).precision == state.precision,
        state.ingest(data).sparse_precision == state.sparse_precision,
        state.ingest(data).hasher == state.hasher,
    decreases data.len(),
{
    if data.len() > 0 {
        lemma_ingest_wf(state, data.drop_last());
        lemma_read_wf(state.ingest(data.drop_last()), data.last());
    }
}

/// The value that a state has stored for a bucket. A sparse state has not
/// allocated its buckets, and has stored zero for each of them.
pub open spec fn stored_value(state: HllppState, bucket: int) -> u8 {
    match state.format {
        Format::NORMAL => state.buckets[bucket],
        Format::SPARSE => 0,
    }
}

/// Promotion is one-way: a dense state stays dense, with as many buckets.
pub proof fn lemma_dense_stays_dense(state: HllppState, data: Seq<u64>)
    requires
        state.wf(),
        state.format == Format::NORMAL,
    ensures
        state.ingest(data).format == Format::NORMAL,
        state.ingest(data).buckets.len() == state.buckets.len(),
    decreases data.len(),
{
    if data.len() > 0 {
        lemma_dense_stays_dense(state, data.drop_last());
        lemma_ingest_wf(state, data.drop_last());
        lemma_bucket_index_bound(
            state.ingest(data.drop_last()).hashed(data.last()),
            state.precision,
        );
    }
}

/// Monotonicity, one call: the value stored for a bucket does not decrease
/// when an element is read.
pub proof fn lemma_read_monotone(state: HllppState, data: u64, bucket: int)
    requires
        state.wf(),
        0 <= bucket < state.num_buckets(),
    ensures
        stored_value(state, bucket) <= stored_value(state.read(data), bucket),
{
    lemma_bucket_index_bound(state.hashed(data), state.precision);
}

/// Monotonicity: the value stored for a bucket never decreases across
/// successive reads.
pub proof fn lemma_ingest_monotone(state: HllppState, data: Seq<u64>, bucket: int)
    requires
        state.wf(),
        0 <= bucket < state.num_buckets(),
    ensures
        stored_value(state, bucket) <= stored_value(state.ingest(data), bucket),
    decreases data.len(),
{
    if data.len() > 0 {
        lemma_ingest_monotone(state, data.drop_last(), bucket);
        lemma_ingest_wf(state, data.drop_last());
        lemma_read_monotone(state.ingest(data.drop_last()), data.last(), bucket);
    }
}

/// Idempotence, at once: reading an element a second time right after the
/// first changes nothing, whatever representation the estimator is in and
/// whether or not the first reading promoted it.
pub proof fn lemma_read_twice(state: HllppState, data: u64)
    requires
        state.wf(),
    ensures
        state.read(data).read(data) == state.read(data),
{
    let hashed = state.hashed(data);
    let once = state.read(data);
    lemma_read_wf(state, data);
    lemma_bucket_index_bound(hashed, state.precision);
    lemma_leading_zero_run_bound(hashed, state.precision);
    lemma_encoded_hash_in_range(state.precision, state.sparse_precision, hashed);
    let bucket = bucket_index(hashed, state.precision) as int;
    match state.format {
        Format::NORMAL => {
            assert(once.read(data).buckets =~= once.buckets);
        },
        Format::SPARSE => {
            let inserted = state.inserted(data);
            if state.promotes_on(data) {
                lemma_folded_bucket(inserted, bucket, (64 - state.precision) as u8);
                assert(inserted.contains_key(sparse_key(state.sparse_precision, hashed)));
                assert(once.read(data).buckets =~= once.buckets);
            } else {
                assert(once.inserted(data) =~= inserted);
            }
        },
    }
}

/// Idempotence, later on: once a dense estimator has read an element, or an
/// estimator was promoted by reading it, reading it again leaves every bucket
/// as it is, no matter what was read in between.
pub proof fn lemma_reread_unchanged(state: HllppState, data: u64, between: Seq<u64>)
    requires
        state.wf(),
        state.read(data).format == Format::NORMAL,
    ensures
        state.read(data).ingest(between).read(data) == state.read(data).ingest(between),
{
    let hashed = state.hashed(data);
    let once = state.read(data);
    let later = once.ingest(between);
    let bucket = bucket_index(hashed, state.precision) as int;
    lemma_read_wf(state, data);
    lemma_read_twice(state, data);
    lemma_bucket_index_bound(hashed, state.precision);
    lemma_ingest_wf(once, between);
    lemma_dense_stays_dense(once, between);
    lemma_ingest_monotone(once, between, bucket);
    // reading `data` again left `once` as it was, so its bucket holds at
    // least the run of `data`, and so does the bucket of `later`
    assert(once.read(data).buckets[bucket] == once.buckets[bucket]);
    assert(later.read(data).buckets =~= later.buckets);
}

/// Promotion boundary: a sparse estimator is promoted by exactly that read
/// which brings a new key to a map that already holds `6 * 2^precision`
/// records. Right after, the estimator is dense, its map is empty, and every
/// bucket holds the longest run among the records that the map held,
/// the new one included, so that no record's run exceeds its bucket.
pub proof fn lemma_promotion_boundary(state: HllppState, data: u64)
    requires
        state.wf(),
        state.format == Format::SPARSE,
    ensures
        state.read(data).format == Format::NORMAL <==> state.sparse.len() == sparse_capacity(
            state.precision,
        ) && !state.sparse.contains_key(sparse_key(state.sparse_precision, state.hashed(data))),
        state.read(data).format == Format::NORMAL ==> {
            &&& state.read(data).sparse == Map::<u64, EncodedHash>::empty()
            &&& state.read(data).buckets.len() == state.num_buckets()
            &&& forall|bucket: int|
                0 <= bucket < state.num_buckets() ==> is_folded_bucket(
                    state.inserted(data),
                    bucket,
                    #[trigger] state.read(data).buckets[bucket],
                )
            &&& forall|key: u64| #[trigger]
                state.inserted(data).contains_key(key)
                    ==> state.inserted(data)[key].normal_leading_zeros <= state.read(
                    data,
                ).buckets[state.inserted(data)[key].normal_bucket_idx as int]
        },
        state.read(data).format == Format::SPARSE ==> state.read(data).sparse == state.inserted(
            data,
        ),
{
    let hashed = state.hashed(data);
    let inserted = state.inserted(data);
    lemma_encoded_hash_in_range(state.precision, state.sparse_precision, hashed);
    if state.promotes_on(data) {
        assert forall|bucket: int| 0 <= bucket < state.num_buckets() implies is_folded_bucket(
            inserted,
            bucket,
            #[trigger] state.read(data).buckets[bucket],
        ) by {
            lemma_folded_bucket(inserted, bucket, (64 - state.precision) as u8);
        }
        assert forall|key: u64| #[trigger] inserted.contains_key(key) implies inserted[key].normal_leading_zeros
            <= state.read(data).buckets[inserted[key].normal_bucket_idx as int] by {
            let bucket = inserted[key].normal_bucket_idx as int;
            lemma_folded_bucket(inserted, bucket, (64 - state.precision) as u8);
        }
    }
}

/// A freshly constructed estimator is one that an estimator can be, and its
/// estimate is that of an empty sparse map: no key is taken, for which the
/// estimate is zero.
pub proof fn lemma_fresh_estimate(
    precision: nat,
    sparse_precision: nat,
    hasher: UniversalHashFunction,
)
    requires
        valid_precisions(precision, sparse_precision),
    ensures
        HllppState::fresh(precision, sparse_precision, hasher).wf(),
        HllppState::fresh(precision, sparse_precision, hasher).estimate_terms() == (
        EstimateTerms::Sparse { sparse_precision: sparse_precision as usize, distinct_count: 0 }),
{
}

/// Determinism: two estimators with the same precisions whose hash functions
/// have the same width and seeds, fed the same elements in the same order,
/// are in the same state and give the same estimate.
pub proof fn lemma_same_seeds_same_state(
    precision: nat,
    sparse_precision: nat,
    first: UniversalHashFunction,
    second: UniversalHashFunction,
    data: Seq<u64>,
)
    requires
        first.result_bits() == second.result_bits(),
        first.seed_a() == second.seed_a(),
        first.seed_b() == second.seed_b(),
    ensures
        HllppState::fresh(precision, sparse_precision, first).ingest(data) == HllppState::fresh(
            precision,
            sparse_precision,
            second,
        ).ingest(data),
        HllppState::fresh(precision, sparse_precision, first).ingest(data).estimate_terms()
            == HllppState::fresh(precision, sparse_precision, second).ingest(
            data,
        ).estimate_terms(),
{
    first.lemma_same_parameters(second);
}

} // verus!
