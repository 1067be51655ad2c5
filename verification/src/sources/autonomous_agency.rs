//! Autonomous agency conjunct sources.

use vstd::prelude::*;

verus! {

pub const METR_80PCT_TIME_HORIZON: &'static str = "metr-80pct-time-horizon";
pub const RE_BENCH: &'static str = "re-bench";
pub const SWE_BENCH_VERIFIED: &'static str = "swe-bench-verified";

/// All autonomous agency source IDs, in canonical order.
pub fn all() -> (r: &'static [&'static str])
    ensures
        r@ == seq![METR_80PCT_TIME_HORIZON, RE_BENCH, SWE_BENCH_VERIFIED],
{
    &[METR_80PCT_TIME_HORIZON, RE_BENCH, SWE_BENCH_VERIFIED]
}

} // verus!
