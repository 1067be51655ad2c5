//! Environmental transfer conjunct sources.

use vstd::prelude::*;

verus! {

pub const ARC_AGI_3: &'static str = "arc-agi-3";
pub const OSWORLD: &'static str = "osworld";
pub const NES: &'static str = "nes";

/// WebArena (Novel-Environment Subset source): web task success rate.
pub const WEBARENA: &'static str = "webarena";
/// SWE-bench Verified pass@1 (Novel-Environment Subset source).
pub const SWE_BENCH_VERIFIED_PASS_AT_1: &'static str = "swe-bench-verified-pass-at-1";
/// ARIES (Novel-Environment Subset source): research task score on the
/// 0–100 rubric, reported as a fraction of the full score.
pub const ARIES: &'static str = "aries";

/// All environmental transfer source IDs, in canonical order.
pub fn all() -> (r: &'static [&'static str])
    ensures
        r@ == seq![ARC_AGI_3, OSWORLD, NES],
{
    &[ARC_AGI_3, OSWORLD, NES]
}

/// The accepted Novel-Environment Subset sources, each with its own
/// threshold and floor.
pub fn nes_sources() -> (r: &'static [&'static str])
    ensures
        r@ == seq![WEBARENA, SWE_BENCH_VERIFIED_PASS_AT_1, ARIES],
{
    &[WEBARENA, SWE_BENCH_VERIFIED_PASS_AT_1, ARIES]
}

} // verus!
