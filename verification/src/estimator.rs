//! The estimator: a sparse map of records that is promoted, once and for good,
//! to a dense array of buckets.

use crate::addressing::{
    bucket_index, decode, encode, encoded_hash, encoded_hash_in_range, get_bucket_idx,
    get_leading_zeros, leading_zero_run, lemma_bucket_index_bound, sparse_key, EncodedHash,
};
use crate::error::HllppError;
use crate::universalhash::{UniversalHashFunction, UniversalHashFunctionsFamily};
use std::collections::HashMap;
use vstd::arithmetic::power2::*;
use vstd::bits::*;
use vstd::prelude::*;
use vstd::std_specs::hash::*;

verus! {

broadcast use vstd::std_specs::hash::group_hash_axioms;

/// Number of result bits of the hash function that an estimator draws for
/// itself.
pub const HASHER_BITS: usize = 64;

/// The sparse map is promoted once it holds more than this many records per
/// bucket.
pub const SPARSE_LOAD: usize = 6;

/// The representation an estimator is in. Every estimator starts out sparse;
/// a dense one stays dense.
#[allow(non_camel_case_types)]
#[derive(Clone, Copy, Debug, PartialEq, Eq, Structural)]
pub enum Format {
    NORMAL,
    SPARSE,
}

/// Whether an estimator can be built with these two precisions.
pub open spec fn valid_precisions(precision: nat, sparse_precision: nat) -> bool {
    &&& precision < sparse_precision <= 64
    &&& pow2(precision) <= isize::MAX
}

/// Number of records beyond which a sparse map is promoted.
pub open spec fn sparse_capacity(precision: nat) -> nat {
    6 * pow2(precision)
}

/// Whether `value` is what max-merging every record of `entries` that falls
/// into bucket `bucket` leaves there: no such record has a longer run, and the
/// value is the run of one of them, or zero.
pub open spec fn is_folded_bucket(entries: Map<u64, EncodedHash>, bucket: int, value: u8) -> bool {
    &&& forall|key: u64|
        #![trigger entries.contains_key(key)]
        entries.contains_key(key) && entries[key].normal_bucket_idx == bucket
            ==> entries[key].normal_leading_zeros <= value
    &&& (value == 0 || exists|key: u64|
        #![trigger entries.contains_key(key)]
        entries.contains_key(key) && entries[key].normal_bucket_idx == bucket
            && entries[key].normal_leading_zeros == value)
}

/// The value that max-merging the records of `entries` leaves in a bucket.
pub open spec fn folded_bucket(entries: Map<u64, EncodedHash>, bucket: int) -> u8 {
    choose|value: u8| is_folded_bucket(entries, bucket, value)
}

/// The dense array that the records of `entries` fold into.
pub open spec fn folded_buckets(entries: Map<u64, EncodedHash>, num_buckets: nat) -> Seq<u8> {
    Seq::new(num_buckets, |bucket: int| folded_bucket(entries, bucket))
}

/// At most one value is the fold of a bucket.
pub proof fn lemma_folded_bucket_unique(
    entries: Map<u64, EncodedHash>,
    bucket: int,
    first: u8,
    second: u8,
)
    requires
        is_folded_bucket(entries, bucket, first),
        is_folded_bucket(entries, bucket, second),
    ensures
        first == second,
{
}

/// A value that is the fold of a bucket is `folded_bucket`.
pub proof fn lemma_folded_bucket_is(entries: Map<u64, EncodedHash>, bucket: int, value: u8)
    requires
        is_folded_bucket(entries, bucket, value),
    ensures
        folded_bucket(entries, bucket) == value,
{
    lemma_folded_bucket_unique(entries, bucket, value, folded_bucket(entries, bucket));
}

/// The larger of two runs.
pub open spec fn longer_run(first: u8, second: u8) -> u8 {
    if first >= second {
        first
    } else {
        second
    }
}

/// Number of buckets of a dense array that hold zero.
pub open spec fn empty_buckets(buckets: Seq<u8>) -> nat
    decreases buckets.len(),
{
    if buckets.len() == 0 {
        0
    } else {
        empty_buckets(buckets.drop_last()) + if buckets.last() == 0 {
            1nat
        } else {
            0nat
        }
    }
}

/// The sum of `2^(-value)` over the buckets of a dense array, scaled by
/// `2^64` so that it is a whole number: the sum of `2^(64 - value)`.
pub open spec fn inverse_power_sum(buckets: Seq<u8>) -> nat
    decreases buckets.len(),
{
    if buckets.len() == 0 {
        0
    } else {
        inverse_power_sum(buckets.drop_last()) + if buckets.last() <= 64 {
            pow2((64 - buckets.last()) as nat)
        } else {
            0nat
        }
    }
}

/// The scaled sum is at most `2^64` per bucket.
pub proof fn lemma_inverse_power_sum_bound(buckets: Seq<u8>)
    ensures
        inverse_power_sum(buckets) <= buckets.len() * pow2(64),
    decreases buckets.len(),
{
    if buckets.len() > 0 {
        lemma_inverse_power_sum_bound(buckets.drop_last());
        if buckets.last() <= 64 {
            if buckets.last() > 0 {
                lemma_pow2_strictly_increases((64 - buckets.last()) as nat, 64);
            }
        }
        assert(buckets.len() * pow2(64) == (buckets.len() - 1) * pow2(64) + pow2(64))
            by (nonlinear_arith);
    }
}

/// The exact quantities from which an estimate is computed.
#[derive(Clone, Copy, Debug, PartialEq, Eq, Structural)]
pub enum EstimateTerms {
    /// Sparse: of the `2^sparse_precision` keys there are, `distinct_count`
    /// are in the map. The estimate is linear counting over the keys,
    /// `m * ln(m / (m - distinct_count))` with `m = 2^sparse_precision`, and
    /// zero where `distinct_count` is zero.
    Sparse { sparse_precision: usize, distinct_count: usize },
    /// Dense: of the `2^precision` buckets, `empty_buckets` hold zero, and
    /// `inverse_power_sum / 2^64` is the sum of `2^(-value)` over all of them.
    Normal { precision: usize, empty_buckets: usize, inverse_power_sum: u128 },
}

/// What an estimator stands for: its configuration, its hash function, and
/// what it has stored in the representation it is in.
pub ghost struct HllppState {
    pub precision: nat,
    pub sparse_precision: nat,
    pub hasher: UniversalHashFunction,
    pub format: Format,
    pub sparse: Map<u64, EncodedHash>,
    pub buckets: Seq<u8>,
}

impl HllppState {
    /// Number of buckets of the dense array.
    pub open spec fn num_buckets(self) -> nat {
        pow2(self.precision)
    }

    /// The states that an estimator can be in. A sparse one has no buckets,
    /// at most `6 * 2^precision` records, and each of them in range. A dense
    /// one has `2^precision` buckets, none above the longest run there is, and
    /// no records.
    pub open spec fn wf(self) -> bool {
        &&& valid_precisions(self.precision, self.sparse_precision)
        &&& self.sparse.dom().finite()
        &&& match self.format {
            Format::SPARSE => {
                &&& self.buckets.len() == 0
                &&& self.sparse.len() <= sparse_capacity(self.precision)
                &&& forall|key: u64| #[trigger]
                    self.sparse.contains_key(key) ==> encoded_hash_in_range(
                        self.precision,
                        self.sparse_precision,
                        self.sparse[key],
                    )
            },
            Format::NORMAL => {
                &&& self.buckets.len() == self.num_buckets()
                &&& self.sparse == Map::<u64, EncodedHash>::empty()
                &&& forall|bucket: int|
                    0 <= bucket < self.buckets.len() ==> #[trigger] self.buckets[bucket] <= 64
                        - self.precision
            },
        }
    }

    /// The state of an estimator that has read nothing: sparse and empty.
    pub open spec fn fresh(
        precision: nat,
        sparse_precision: nat,
        hasher: UniversalHashFunction,
    ) -> HllppState {
        HllppState {
            precision,
            sparse_precision,
            hasher,
            format: Format::SPARSE,
            sparse: Map::empty(),
            buckets: Seq::empty(),
        }
    }

    /// The hash value of an element under this estimator's hash function.
    pub open spec fn hashed(self, data: u64) -> u64 {
        self.hasher.hash64_value(data) as u64
    }

    /// The sparse map after the record of `data` has been put into it.
    pub open spec fn inserted(self, data: u64) -> Map<u64, EncodedHash> {
        self.sparse.insert(
            sparse_key(self.sparse_precision, self.hashed(data)),
            encoded_hash(self.precision, self.sparse_precision, self.hashed(data)),
        )
    }

    /// Whether reading `data` promotes this state: it is sparse, and with the
    /// record of `data` its map holds more than `6 * 2^precision` records.
    pub open spec fn promotes_on(self, data: u64) -> bool {
        self.format == Format::SPARSE && self.inserted(data).len() > sparse_capacity(
            self.precision,
        )
    }

    /// The state after reading one element.
    ///
    /// A dense state max-merges the run of the element into its bucket. A
    /// sparse state puts the record of the element under its key, replacing
    /// what was there; if the map then holds more than `6 * 2^precision`
    /// records, they are folded into a dense array and the map is dropped.
    pub open spec fn read(self, data: u64) -> HllppState {
        match self.format {
            Format::NORMAL => {
                let bucket = bucket_index(self.hashed(data), self.precision) as int;
                let run = leading_zero_run(self.hashed(data), self.precision) as u8;
                HllppState {
                    buckets: self.buckets.update(bucket, longer_run(self.buckets[bucket], run)),
                    ..self
                }
            },
            Format::SPARSE => {
                if self.promotes_on(data) {
                    HllppState {
                        format: Format::NORMAL,
                        sparse: Map::empty(),
                        buckets: folded_buckets(self.inserted(data), self.num_buckets()),
                        ..self
                    }
                } else {
                    HllppState { sparse: self.inserted(data), ..self }
                }
            },
        }
    }

    /// The state after reading the elements of `data` in order.
    pub open spec fn ingest(self, data: Seq<u64>) -> HllppState
        decreases data.len(),
    {
        if data.len() == 0 {
            self
        } else {
            self.ingest(data.drop_last()).read(data.last())
        }
    }

    /// The quantities from which the estimate of this state is computed.
    pub open spec fn estimate_terms(self) -> EstimateTerms {
        match self.format {
            Format::SPARSE => EstimateTerms::Sparse {
                sparse_precision: self.sparse_precision as usize,
                distinct_count: self.sparse.len() as usize,
            },
            Format::NORMAL => EstimateTerms::Normal {
                precision: self.precision as usize,
                empty_buckets: empty_buckets(self.buckets) as usize,
                inverse_power_sum: inverse_power_sum(self.buckets) as u128,
            },
        }
    }
}

/// Max-merges the records of a sparse map into `num_buckets` zeroed buckets.
fn fold_entries(entries: &HashMap<u64, EncodedHash>, num_buckets: usize) -> (buckets: Vec<u8>)
    requires
        forall|key: u64| #[trigger]
            entries@.contains_key(key) ==> entries@[key].normal_bucket_idx < num_buckets,
    ensures
        buckets.len() == num_buckets,
        forall|bucket: int|
            0 <= bucket < num_buckets ==> is_folded_bucket(entries@, bucket, #[trigger] buckets[bucket]),
{
    let mut buckets: Vec<u8> = vec![0u8; num_buckets];
    for pair in it: entries.iter()
        invariant
            buckets.len() == num_buckets,
            forall|key: u64| #[trigger]
                entries@.contains_key(key) ==> entries@[key].normal_bucket_idx < num_buckets,
            forall|i: int|
                0 <= i < it.seq().len() ==> entries@.contains_key(*(#[trigger] it.seq()[i]).0)
                    && entries@[*it.seq()[i].0] == *it.seq()[i].1,
            forall|key: u64| #[trigger]
                entries@.contains_key(key) ==> exists|i: int|
                    0 <= i < it.seq().len() && *(#[trigger] it.seq()[i]).0 == key,
            forall|bucket: int, i: int|
                0 <= bucket < num_buckets && 0 <= i < it.index() && (#[trigger] it.seq()[i]).1.normal_bucket_idx
                    == bucket ==> it.seq()[i].1.normal_leading_zeros <= #[trigger] buckets[bucket],
            forall|bucket: int|
                0 <= bucket < num_buckets ==> (#[trigger] buckets[bucket]) == 0 || exists|i: int|
                    0 <= i < it.index() && (#[trigger] it.seq()[i]).1.normal_bucket_idx == bucket
                        && it.seq()[i].1.normal_leading_zeros == buckets[bucket],
    {
        let (_, encoded) = pair;
        let (bucket_idx, leading_zeros) = decode(*encoded);
        if leading_zeros > buckets[bucket_idx] {
            buckets.set(bucket_idx, leading_zeros);
        }
    }
    buckets
}

/// A HyperLogLog++ estimator of the number of distinct elements of a stream.
pub struct HLLPP {
    precision: usize,
    sparse_precision: usize,
    num_buckets: usize,
    format: Format,
    tmp_set: HashMap<u64, EncodedHash>,
    hasher: UniversalHashFunction,
    buckets: Vec<u8>,
}

impl View for HLLPP {
    type V = HllppState;

    closed spec fn view(&self) -> HllppState {
        HllppState {
            precision: self.precision as nat,
            sparse_precision: self.sparse_precision as nat,
            hasher: self.hasher,
            format: self.format,
            sparse: self.tmp_set@,
            buckets: self.buckets@,
        }
    }
}

impl HLLPP {
    /// Whether the estimator is in one of the states it can be in, and knows
    /// how many buckets its precision gives. Every constructor establishes
    /// this and every method keeps it.
    pub closed spec fn wf(&self) -> bool {
        &&& self@.wf()
        &&& self.num_buckets == pow2(self.precision as nat)
    }

    /// An empty estimator with a hash function of 64 result bits and freshly
    /// drawn seeds.
    ///
    /// Fails with `SparsePrecisionTooSmall` unless `precision` is below
    /// `sparse_precision`, and otherwise with `PrecisionTooLarge` where
    /// `sparse_precision` exceeds 64 or `2^precision` buckets are more than an
    /// array can hold.
    pub fn new(precision: usize, sparse_precision: usize) -> (made: Result<HLLPP, HllppError>)
        ensures
            made is Ok <==> valid_precisions(precision as nat, sparse_precision as nat),
            sparse_precision <= precision ==> made == Err::<HLLPP, HllppError>(
                HllppError::SparsePrecisionTooSmall,
            ),
            precision < sparse_precision && !valid_precisions(
                precision as nat,
                sparse_precision as nat,
            ) ==> made == Err::<HLLPP, HllppError>(HllppError::PrecisionTooLarge),
            made matches Ok(estimator) ==> {
                &&& estimator.wf()
                &&& estimator@.wf()
                &&& estimator@.hasher.result_bits() == HASHER_BITS
                &&& estimator@ == HllppState::fresh(
                    precision as nat,
                    sparse_precision as nat,
                    estimator@.hasher,
                )
            },
    {
        let mut family = UniversalHashFunctionsFamily::new(HASHER_BITS);
        let hasher = family.construct_new_hash_function_with_random_seeds();
        Self::with_hash_function(precision, sparse_precision, hasher)
    }

    /// An empty estimator that hashes with `hasher`. Two estimators made with
    /// the same precisions and the same hash function start out equal.
    ///
    /// Fails as `new` does.
    pub fn with_hash_function(
        precision: usize,
        sparse_precision: usize,
        hasher: UniversalHashFunction,
    ) -> (made: Result<HLLPP, HllppError>)
        ensures
            made is Ok <==> valid_precisions(precision as nat, sparse_precision as nat),
            sparse_precision <= precision ==> made == Err::<HLLPP, HllppError>(
                HllppError::SparsePrecisionTooSmall,
            ),
            precision < sparse_precision && !valid_precisions(
                precision as nat,
                sparse_precision as nat,
            ) ==> made == Err::<HLLPP, HllppError>(HllppError::PrecisionTooLarge),
            made matches Ok(estimator) ==> {
                &&& estimator.wf()
                &&& estimator@.wf()
                &&& estimator@ == HllppState::fresh(
                    precision as nat,
                    sparse_precision as nat,
                    hasher,
                )
            },
    {
        if sparse_precision <= precision {
            return Err(HllppError::SparsePrecisionTooSmall);
        }
        if sparse_precision > 64 {
            return Err(HllppError::PrecisionTooLarge);
        }
        proof {
            lemma2_to64();
            lemma_pow2_strictly_increases(precision as nat, 64);
            lemma_u64_shl_is_mul(1, precision as u64);
        }
        let wanted: u64 = 1u64 << (precision as u64);
        if wanted > isize::MAX as u64 {
            return Err(HllppError::PrecisionTooLarge);
        }
        let estimator = HLLPP {
            precision,
            sparse_precision,
            num_buckets: wanted as usize,
            format: Format::SPARSE,
            tmp_set: HashMap::new(),
            hasher,
            buckets: Vec::new(),
        };
        proof {
            assert(estimator@.sparse =~= Map::<u64, EncodedHash>::empty());
            assert(estimator@.buckets =~= Seq::<u8>::empty());
        }
        Ok(estimator)
    }

    /// The representation the estimator is in.
    pub fn format(&self) -> (format: Format)
        ensures
            format == self@.format,
    {
        self.format
    }

    /// The address width of the dense array.
    pub fn precision(&self) -> (precision: usize)
        ensures
            precision == self@.precision,
    {
        self.precision
    }

    /// The address width of the sparse map.
    pub fn sparse_precision(&self) -> (sparse_precision: usize)
        ensures
            sparse_precision == self@.sparse_precision,
    {
        self.sparse_precision
    }

    /// The hash function of the estimator.
    pub fn hasher(&self) -> (hasher: UniversalHashFunction)
        ensures
            hasher == self@.hasher,
    {
        self.hasher
    }

    /// The dense array: empty while the estimator is sparse.
    pub fn buckets(&self) -> (buckets: &Vec<u8>)
        ensures
            buckets@ == self@.buckets,
    {
        &self.buckets
    }

    /// The record kept under a sparse key, if there is one.
    pub fn sparse_entry(&self, sparse_bucket_idx: u64) -> (entry: Option<EncodedHash>)
        ensures
            entry == if self@.sparse.contains_key(sparse_bucket_idx) {
                Some(self@.sparse[sparse_bucket_idx])
            } else {
                None::<EncodedHash>
            },
    {
        match self.tmp_set.get(&sparse_bucket_idx) {
            Some(encoded) => Some(*encoded),
            None => None,
        }
    }

    /// Reads one element of the stream.
    ///
    /// The element is hashed to 64 bits. A dense estimator max-merges the run
    /// of leading zeros of the residual into the bucket that the hash value
    /// selects. A sparse estimator puts the record of the hash value under
    /// its sparse key, in place of a record that was there, and is promoted
    /// if it then holds more than six records per bucket.
    pub fn read_data(&mut self, data: u64)
        requires
            old(self).wf(),
        ensures
            final(self).wf(),
            final(self)@.wf(),
            final(self)@ == old(self)@.read(data),
    {
        let hashed_data = self.hasher.hash64(data);
        match self.format {
            Format::NORMAL => {
                proof {
                    lemma_bucket_index_bound(hashed_data, self.precision as nat);
                }
                let bucket_idx = get_bucket_idx(self.precision, hashed_data) as usize;
                let leading_zeros = get_leading_zeros(self.precision, hashed_data);
                if leading_zeros > self.buckets[bucket_idx] {
                    self.buckets[bucket_idx] = leading_zeros;
                }
                proof {
                    assert(self@.buckets =~= old(self)@.read(data).buckets);
                }
            },
            Format::SPARSE => {
                let (sparse_bucket_idx, encoded) = encode(
                    self.precision,
                    self.sparse_precision,
                    hashed_data,
                );
                self.tmp_set.insert(sparse_bucket_idx, encoded);
                if self.tmp_set.len() as u128 > SPARSE_LOAD as u128 * self.num_buckets as u128 {
                    self.to_normal();
                }
            },
        }
    }

    /// Promotes a sparse estimator: a zeroed dense array is allocated, every
    /// record of the map is max-merged into its bucket, and the map is
    /// dropped.
    fn to_normal(&mut self)
        requires
            valid_precisions(old(self)@.precision, old(self)@.sparse_precision),
            old(self).num_buckets == pow2(old(self).precision as nat),
            old(self)@.format == Format::SPARSE,
            forall|key: u64| #[trigger]
                old(self)@.sparse.contains_key(key) ==> encoded_hash_in_range(
                    old(self)@.precision,
                    old(self)@.sparse_precision,
                    old(self)@.sparse[key],
                ),
        ensures
            final(self).wf(),
            final(self)@ == (HllppState {
                format: Format::NORMAL,
                sparse: Map::empty(),
                buckets: folded_buckets(old(self)@.sparse, old(self)@.num_buckets()),
                ..old(self)@
            }),
    {
        let buckets = fold_entries(&self.tmp_set, self.num_buckets);
        proof {
            assert forall|bucket: int| 0 <= bucket < buckets.len() implies buckets[bucket]
                == folded_bucket(self.tmp_set@, bucket) && #[trigger] buckets[bucket] <= 64
                - self.precision by {
                lemma_folded_bucket_is(self.tmp_set@, bucket, buckets[bucket]);
            }
            assert(buckets@ =~= folded_buckets(self.tmp_set@, self.num_buckets as nat));
        }
        self.buckets = buckets;
        self.tmp_set = HashMap::new();
        self.format = Format::NORMAL;
    }

    /// The quantities from which the estimate is computed, exactly. Nothing
    /// is changed by asking.
    pub fn compute_estimates(&self) -> (terms: EstimateTerms)
        requires
            self.wf(),
        ensures
            terms == self@.estimate_terms(),
    {
        match self.format {
            Format::SPARSE => EstimateTerms::Sparse {
                sparse_precision: self.sparse_precision,
                distinct_count: self.tmp_set.len(),
            },
            Format::NORMAL => {
                let inverse_power_sum = self.compute_mean_leading_zeros();
                let empty_buckets = self.count_empty_buckets();
                EstimateTerms::Normal {
                    precision: self.precision,
                    empty_buckets,
                    inverse_power_sum,
                }
            },
        }
    }

    /// The denominator of the harmonic mean of a dense estimator: the sum of
    /// `2^(-value)` over its buckets, scaled by `2^64`.
    fn compute_mean_leading_zeros(&self) -> (total: u128)
        requires
            self.wf(),
            self@.format == Format::NORMAL,
        ensures
            total == inverse_power_sum(self@.buckets),
    {
        let mut total: u128 = 0;
        let mut i: usize = 0;
        proof {
            lemma2_to64();
            crate::universalhash::lemma_pow2_128();
        }
        while i < self.buckets.len()
            invariant
                i <= self.buckets.len(),
                self.buckets.len() <= isize::MAX,
                total == inverse_power_sum(self.buckets@.take(i as int)),
                total <= i * pow2(64),
                pow2(64) == 0x1_0000_0000_0000_0000,
                forall|bucket: int|
                    0 <= bucket < self.buckets.len() ==> #[trigger] self.buckets[bucket] <= 64,
            decreases self.buckets.len() - i,
        {
            let num_leading_zeros = self.buckets[i];
            let term: u128 = if num_leading_zeros == 0 {
                0x1_0000_0000_0000_0000u128
            } else {
                proof {
                    lemma_pow2_strictly_increases((64 - num_leading_zeros) as nat, 64);
                    lemma_u64_shl_is_mul(1, (64 - num_leading_zeros) as u64);
                }
                (1u64 << ((64 - num_leading_zeros) as u64)) as u128
            };
            proof {
                let next = self.buckets@.take(i + 1);
                assert(next.drop_last() =~= self.buckets@.take(i as int));
                assert(next.last() == num_leading_zeros);
                lemma_inverse_power_sum_bound(next);
                assert((i + 1) * pow2(64) <= isize::MAX * pow2(64)) by (nonlinear_arith)
                    requires
                        i + 1 <= isize::MAX,
                ;
            }
            total = total + term;
            i = i + 1;
        }
        proof {
            assert(self.buckets@.take(i as int) =~= self.buckets@);
        }
        total
    }

    /// Number of buckets of a dense estimator that hold zero.
    fn count_empty_buckets(&self) -> (count: usize)
        requires
            self.wf(),
            self@.format == Format::NORMAL,
        ensures
            count == empty_buckets(self@.buckets),
    {
        let mut count: usize = 0;
        let mut i: usize = 0;
        while i < self.buckets.len()
            invariant
                i <= self.buckets.len(),
                count == empty_buckets(self.buckets@.take(i as int)),
                count <= i,
            decreases self.buckets.len() - i,
        {
            proof {
                let next = self.buckets@.take(i + 1);
                assert(next.drop_last() =~= self.buckets@.take(i as int));
                assert(next.last() == self.buckets[i as int]);
            }
            if self.buckets[i] == 0 {
                count = count + 1;
            }
            i = i + 1;
        }
        proof {
            assert(self.buckets@.take(i as int) =~= self.buckets@);
        }
        count
    }
}

} // verus!
