//! Generality thresholds (fractions, in millionths).

use vstd::prelude::*;

verus! {

/// ARC-AGI-2 pass threshold: 0.85.
pub const ARC_AGI_2_PASS: u64 = 850_000;
/// ARC-AGI-3 pass threshold: 0.50.
pub const ARC_AGI_3_PASS: u64 = 500_000;
/// ARC-AGI-3 fluid-generality floor: 0.05.
pub const ARC_AGI_3_FLOOR: u64 = 50_000;
/// HLE pass threshold: 0.80.
pub const HLE_PASS: u64 = 800_000;
/// GPQA Diamond pass threshold: 0.90.
pub const GPQA_DIAMOND_PASS: u64 = 900_000;

} // verus!
