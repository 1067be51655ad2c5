//! Economic substitutability thresholds (fractions, in millionths).

use vstd::prelude::*;

verus! {

/// GDPval pass threshold: 0.85.
pub const GDPVAL_PASS: u64 = 850_000;
/// RLI pass threshold: 0.60.
pub const RLI_PASS: u64 = 600_000;
/// RLI floor: 0.10.
pub const RLI_FLOOR: u64 = 100_000;
/// APEX-Agents pass threshold: 0.75.
pub const APEX_AGENTS_PASS: u64 = 750_000;

} // verus!
