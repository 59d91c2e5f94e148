//! The reasons for which the library turns a request down.

use vstd::prelude::*;

verus! {

/// Why a request was turned down.
#[derive(Clone, Copy, Debug, PartialEq, Eq, Structural)]
pub enum HllppError {
    /// The sparse precision does not exceed the precision.
    SparsePrecisionTooSmall,
    /// The sparse precision exceeds the width of a hash value, or the dense
    /// array would be larger than an array can be on this machine.
    PrecisionTooLarge,
    /// No correction table is known for the precision.
    UnsupportedPrecision,
}

} // verus!
