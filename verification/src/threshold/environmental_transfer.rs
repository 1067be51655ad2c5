//! Environmental transfer thresholds (fractions, in millionths).

use vstd::prelude::*;

verus! {

/// ARC-AGI-3 pass threshold (cross-listed with generality): 0.50.
pub const ARC_AGI_3_PASS: u64 = 500_000;
/// ARC-AGI-3 floor (cross-listed with generality): 0.05.
pub const ARC_AGI_3_FLOOR: u64 = 50_000;
/// OSWorld pass threshold: 0.20.
pub const OSWORLD_PASS: u64 = 200_000;
/// OSWorld floor: 0.03.
pub const OSWORLD_FLOOR: u64 = 30_000;
/// WebArena pass threshold: 0.20.
pub const WEBARENA_PASS: u64 = 200_000;
/// WebArena floor: 0.05.
pub const WEBARENA_FLOOR: u64 = 50_000;
/// SWE-bench Verified pass@1 pass threshold: 0.25.
pub const SWE_BENCH_VERIFIED_PASS_AT_1_PASS: u64 = 250_000;
/// SWE-bench Verified pass@1 floor: 0.05.
pub const SWE_BENCH_VERIFIED_PASS_AT_1_FLOOR: u64 = 50_000;
/// ARIES pass threshold: 60/100.
pub const ARIES_PASS: u64 = 600_000;
/// ARIES floor: 30/100.
pub const ARIES_FLOOR: u64 = 300_000;

} // verus!
