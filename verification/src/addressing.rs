//! Splitting a 64-bit hash value into a bucket address and a residual, and the
//! record that is kept of one hash value while the estimator is sparse.
//!
//! With an address width `W`, the `W` high-order bits of a hash value select a
//! bucket and the remaining `64 - W` bits are the residual. What is recorded of
//! the residual is the length of its run of leading zeros, a number between 0
//! and `64 - W`.

use vstd::arithmetic::power2::*;
use vstd::bits::*;
use vstd::prelude::*;
use vstd::std_specs::bits::*;

verus! {

/// Number of bits of a hash value.
pub const HASH_BITS: usize = 64;

/// The bucket that a hash value selects under an address of `width` bits:
/// `value >> (64 - width)`, its `width` high-order bits.
pub open spec fn bucket_index(value: u64, width: nat) -> u64 {
    if width == 0 {
        0
    } else if width >= 64 {
        value
    } else {
        value >> ((64 - width) as u64)
    }
}

/// What is left of a hash value once its `width` high-order bits are cleared:
/// `(value << width) >> width`.
pub open spec fn residual(value: u64, width: nat) -> u64 {
    if width >= 64 {
        0
    } else {
        (value << (width as u64)) >> (width as u64)
    }
}

/// Length of the run of leading zeros of the residual, counted within its
/// `64 - width` bits: the leading zeros of the 64-bit residual without the
/// `width` bits that were cleared.
pub open spec fn leading_zero_run(value: u64, width: nat) -> int {
    u64_leading_zeros(residual(value, width)) - width
}

/// A bucket index under an address of `width` bits is below `2^width`.
pub proof fn lemma_bucket_index_bound(value: u64, width: nat)
    requires
        width <= 64,
    ensures
        (bucket_index(value, width) as nat) < pow2(width),
{
    lemma2_to64();
    if width == 0 {
    } else if width == 64 {
    } else {
        let w = width as u64;
        assert(value >> ((64 - w) as u64) < (1u64 << w)) by (bit_vector)
            requires
                0 < w < 64,
        ;
        lemma_u64_pow2_no_overflow(width);
        lemma_u64_shl_is_mul(1, w);
    }
}

/// The run of leading zeros of a residual has between 0 and `64 - width`
/// zeros, and all of `64 - width` exactly when the residual is zero.
pub proof fn lemma_leading_zero_run_bound(value: u64, width: nat)
    requires
        width <= 64,
    ensures
        0 <= leading_zero_run(value, width) <= 64 - width,
        leading_zero_run(value, width) == 64 - width <==> residual(value, width) == 0,
{
    let r = residual(value, width);
    axiom_u64_leading_zeros(r);
    let lz = u64_leading_zeros(r);
    if width < 64 && lz < width {
        let w = width as u64;
        let j = (63 - lz) as u64;
        assert(((value << w) >> w) >> j & 1u64 == 0u64) by (bit_vector)
            requires
                w < 64,
                64 - w <= j < 64,
        ;
    }
}

/// The bucket that `data` selects under an address of `num_bucket_bits` bits.
pub fn get_bucket_idx(num_bucket_bits: usize, data: u64) -> (idx: u64)
    requires
        num_bucket_bits <= HASH_BITS,
    ensures
        idx == bucket_index(data, num_bucket_bits as nat),
{
    if num_bucket_bits == 0 {
        0
    } else {
        assert(data >> 0u64 == data) by (bit_vector);
        data >> ((HASH_BITS - num_bucket_bits) as u64)
    }
}

/// The residual of `data` under an address of `num_bucket_bits` bits: the
/// address bits are shifted out to the left and zeros are shifted back in.
pub fn get_data_bits(num_bucket_bits: usize, data: u64) -> (data_bits: u64)
    requires
        num_bucket_bits <= HASH_BITS,
    ensures
        data_bits == residual(data, num_bucket_bits as nat),
{
    if num_bucket_bits >= HASH_BITS {
        0
    } else {
        (data << (num_bucket_bits as u64)) >> (num_bucket_bits as u64)
    }
}

/// Length of the run of leading zeros of the residual of `data`.
pub fn get_leading_zeros(num_bucket_bits: usize, data: u64) -> (zeros: u8)
    requires
        num_bucket_bits <= HASH_BITS,
    ensures
        zeros as int == leading_zero_run(data, num_bucket_bits as nat),
        zeros <= HASH_BITS - num_bucket_bits,
{
    let data_bits = get_data_bits(num_bucket_bits, data);
    let all_zeros = data_bits.leading_zeros();
    proof {
        lemma_leading_zero_run_bound(data, num_bucket_bits as nat);
    }
    (all_zeros - num_bucket_bits as u32) as u8
}

/// What the sparse representation keeps of one hash value besides its key:
/// the bucket it will fall into once the estimator is dense, and the runs of
/// leading zeros of its residual under both address widths.
#[derive(Clone, Copy, Debug, PartialEq, Eq, Structural)]
pub struct EncodedHash {
    pub sparse_leading_zeros: u8,
    pub normal_leading_zeros: u8,
    pub normal_bucket_idx: usize,
}

/// The key under which a hash value is kept while the estimator is sparse.
pub open spec fn sparse_key(sparse_precision: nat, hashed_data: u64) -> u64 {
    bucket_index(hashed_data, sparse_precision)
}

/// The record that is kept of a hash value while the estimator is sparse.
pub open spec fn encoded_hash(precision: nat, sparse_precision: nat, hashed_data: u64)
    -> EncodedHash {
    EncodedHash {
        sparse_leading_zeros: leading_zero_run(hashed_data, sparse_precision) as u8,
        normal_leading_zeros: leading_zero_run(hashed_data, precision) as u8,
        normal_bucket_idx: bucket_index(hashed_data, precision) as usize,
    }
}

/// Whether a record can come from a hash value under address widths
/// `precision` and `sparse_precision`: its bucket exists and its runs are no
/// longer than the residuals.
pub open spec fn encoded_hash_in_range(
    precision: nat,
    sparse_precision: nat,
    encoded: EncodedHash,
) -> bool {
    &&& (encoded.normal_bucket_idx as nat) < pow2(precision)
    &&& encoded.normal_leading_zeros <= 64 - precision
    &&& encoded.sparse_leading_zeros <= 64 - sparse_precision
}

/// Every record of a hash value is in range.
pub proof fn lemma_encoded_hash_in_range(precision: nat, sparse_precision: nat, hashed_data: u64)
    requires
        precision <= 64,
        sparse_precision <= 64,
        pow2(precision) <= usize::MAX,
    ensures
        encoded_hash_in_range(
            precision,
            sparse_precision,
            encoded_hash(precision, sparse_precision, hashed_data),
        ),
        encoded_hash(precision, sparse_precision, hashed_data).normal_bucket_idx
            == bucket_index(hashed_data, precision),
        encoded_hash(precision, sparse_precision, hashed_data).normal_leading_zeros
            == leading_zero_run(hashed_data, precision),
        encoded_hash(precision, sparse_precision, hashed_data).sparse_leading_zeros
            == leading_zero_run(hashed_data, sparse_precision),
{
    lemma_bucket_index_bound(hashed_data, precision);
    lemma_leading_zero_run_bound(hashed_data, precision);
    lemma_leading_zero_run_bound(hashed_data, sparse_precision);
}

/// Derives from one hash value its sparse key and the record kept under it.
/// Nothing but the hash value and the two widths goes into either, so the
/// record can be folded into the dense buckets later without hashing again.
pub fn encode(precision: usize, sparse_precision: usize, hashed_data: u64) -> (keyed: (
    u64,
    EncodedHash,
))
    requires
        precision <= HASH_BITS,
        sparse_precision <= HASH_BITS,
        pow2(precision as nat) <= usize::MAX,
    ensures
        keyed.0 == sparse_key(sparse_precision as nat, hashed_data),
        keyed.1 == encoded_hash(precision as nat, sparse_precision as nat, hashed_data),
        encoded_hash_in_range(precision as nat, sparse_precision as nat, keyed.1),
{
    let sparse_bucket_idx = get_bucket_idx(sparse_precision, hashed_data);
    let normal_bucket_idx = get_bucket_idx(precision, hashed_data);
    let sparse_leading_zeros = get_leading_zeros(sparse_precision, hashed_data);
    let normal_leading_zeros = get_leading_zeros(precision, hashed_data);
    proof {
        lemma_encoded_hash_in_range(precision as nat, sparse_precision as nat, hashed_data);
    }
    (
        sparse_bucket_idx,
        EncodedHash {
            sparse_leading_zeros,
            normal_leading_zeros,
            normal_bucket_idx: normal_bucket_idx as usize,
        },
    )
}

/// The part of a record that the dense representation needs: the bucket and
/// the run of leading zeros to merge into it.
pub fn decode(encoded: EncodedHash) -> (folded: (usize, u8))
    ensures
        folded.0 == encoded.normal_bucket_idx,
        folded.1 == encoded.normal_leading_zeros,
{
    (encoded.normal_bucket_idx, encoded.normal_leading_zeros)
}

} // verus!
