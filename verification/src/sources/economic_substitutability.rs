//! Economic substitutability conjunct sources.

use vstd::prelude::*;

verus! {

pub const GDPVAL: &'static str = "gdpval";
pub const GDPVAL_AA: &'static str = "gdpval-aa";
pub const RLI: &'static str = "rli";
pub const APEX_AGENTS: &'static str = "apex-agents";

/// All economic substitutability source IDs, in canonical order.
pub fn all() -> (r: &'static [&'static str])
    ensures
        r@ == seq![GDPVAL, GDPVAL_AA, RLI, APEX_AGENTS],
{
    &[GDPVAL, GDPVAL_AA, RLI, APEX_AGENTS]
}

} // verus!
