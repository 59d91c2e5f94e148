//! HyperLogLog++ cardinality estimation with a sparse and a dense
//! representation, together with the multiply-shift hash family it is built on.
//!
//! An estimator hashes each element to 64 bits. While it is sparse it keeps
//! one record per sparse key; once it holds more than six records per bucket
//! it folds them into a dense array of buckets and stays dense.
//!
//! Everything in this crate works on integers. The quantities from which an
//! estimate is computed are returned exactly, the published constants are
//! held as whole numbers of a fixed unit, and turning the result into a
//! floating-point number is left to the caller.
//!
//! - [`universalhash`]: the hash family and its functions
//! - [`addressing`]: bucket index, residual and run of leading zeros of a
//!   hash value, and the record kept of it
//! - [`estimator`]: the estimator and the states it can be in
//! - [`correction`]: thresholds, bias tables and the selection of the estimate
//! - [`laws`]: what holds of every estimator
//! - [`sparse_list`]: a byte buffer of numbers in variable-length encoding
//! - [`error`]: the reasons for which a request is turned down

pub mod addressing;
pub mod correction;
pub mod error;
pub mod estimator;
pub mod laws;
pub mod sparse_list;
pub mod universalhash;
