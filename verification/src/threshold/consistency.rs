//! Consistency-check constant: the minimum margin must be at least half the
//! maximum margin, i.e. the ratio MARGIN_VARIANCE_NUMERATOR / MARGIN_VARIANCE_DENOMINATOR.

use vstd::prelude::*;

verus! {

/// Numerator of the margin variance ratio 0.5.
pub const MARGIN_VARIANCE_NUMERATOR: u64 = 1;
/// Denominator of the margin variance ratio 0.5.
pub const MARGIN_VARIANCE_DENOMINATOR: u64 = 2;

} // verus!
