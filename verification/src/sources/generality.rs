//! Generality conjunct sources.

use vstd::prelude::*;

verus! {

pub const ARC_AGI_2: &'static str = "arc-agi-2";
pub const ARC_AGI_3: &'static str = "arc-agi-3";
pub const HLE: &'static str = "hle";
pub const GPQA_DIAMOND: &'static str = "gpqa-diamond";

/// All generality source IDs, in canonical order.
pub fn all() -> (r: &'static [&'static str])
    ensures
        r@ == seq![ARC_AGI_2, ARC_AGI_3, HLE, GPQA_DIAMOND],
{
    &[ARC_AGI_2, ARC_AGI_3, HLE, GPQA_DIAMOND]
}

} // verus!
