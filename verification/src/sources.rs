//! Canonical upstream source identifiers.
//!
//! The normalized source IDs used throughout the verdict pipeline.

pub mod autonomous_agency;
pub mod economic_substitutability;
pub mod environmental_transfer;
pub mod generality;

use vstd::prelude::*;

verus! {

/// The canonical list of unique upstream source IDs (ARC-AGI-3 is listed once,
/// although two conjuncts use it).
pub open spec fn unique_sources() -> Seq<&'static str> {
    seq![
        generality::ARC_AGI_2,
        generality::ARC_AGI_3,
        generality::HLE,
        generality::GPQA_DIAMOND,
        economic_substitutability::GDPVAL,
        economic_substitutability::GDPVAL_AA,
        economic_substitutability::RLI,
        economic_substitutability::APEX_AGENTS,
        environmental_transfer::OSWORLD,
        environmental_transfer::NES,
        autonomous_agency::METR_80PCT_TIME_HORIZON,
        autonomous_agency::RE_BENCH,
        autonomous_agency::SWE_BENCH_VERIFIED,
        environmental_transfer::WEBARENA,
        environmental_transfer::SWE_BENCH_VERIFIED_PASS_AT_1,
        environmental_transfer::ARIES,
    ]
}

/// All unique canonical upstream source IDs.
pub fn all_unique_sources() -> (r: &'static [&'static str])
    ensures
        r@ == unique_sources(),
{
    &[
        generality::ARC_AGI_2,
        generality::ARC_AGI_3,
        generality::HLE,
        generality::GPQA_DIAMOND,
        economic_substitutability::GDPVAL,
        economic_substitutability::GDPVAL_AA,
        economic_substitutability::RLI,
        economic_substitutability::APEX_AGENTS,
        environmental_transfer::OSWORLD,
        environmental_transfer::NES,
        autonomous_agency::METR_80PCT_TIME_HORIZON,
        autonomous_agency::RE_BENCH,
        autonomous_agency::SWE_BENCH_VERIFIED,
        environmental_transfer::WEBARENA,
        environmental_transfer::SWE_BENCH_VERIFIED_PASS_AT_1,
        environmental_transfer::ARIES,
    ]
}

/// No two entries of the canonical source list name the same source.
pub proof fn lemma_unique_sources_are_distinct()
    ensures
        forall|i: int, j: int|
            0 <= i < j < unique_sources().len() ==> #[trigger] unique_sources()[i]@
                != #[trigger] unique_sources()[j]@,
{
    reveal_strlit("arc-agi-2");
    reveal_strlit("arc-agi-3");
    reveal_strlit("hle");
    reveal_strlit("gpqa-diamond");
    reveal_strlit("gdpval");
    reveal_strlit("gdpval-aa");
    reveal_strlit("rli");
    reveal_strlit("apex-agents");
    reveal_strlit("osworld");
    reveal_strlit("nes");
    reveal_strlit("metr-80pct-time-horizon");
    reveal_strlit("re-bench");
    reveal_strlit("swe-bench-verified");
    reveal_strlit("webarena");
    reveal_strlit("swe-bench-verified-pass-at-1");
    reveal_strlit("aries");
    assert(unique_sources()[0]@.len() == 9 && unique_sources()[0]@[0] == 'a' && unique_sources()[0]@[8] == '2');
    assert(unique_sources()[1]@.len() == 9 && unique_sources()[1]@[0] == 'a' && unique_sources()[1]@[8] == '3');
    assert(unique_sources()[2]@.len() == 3 && unique_sources()[2]@[0] == 'h');
    assert(unique_sources()[3]@.len() == 12 && unique_sources()[3]@[0] == 'g');
    assert(unique_sources()[4]@.len() == 6 && unique_sources()[4]@[0] == 'g');
    assert(unique_sources()[5]@.len() == 9 && unique_sources()[5]@[0] == 'g' && unique_sources()[5]@[8] == 'a');
    assert(unique_sources()[6]@.len() == 3 && unique_sources()[6]@[0] == 'r');
    assert(unique_sources()[7]@.len() == 11 && unique_sources()[7]@[0] == 'a');
    assert(unique_sources()[8]@.len() == 7 && unique_sources()[8]@[0] == 'o');
    assert(unique_sources()[9]@.len() == 3 && unique_sources()[9]@[0] == 'n');
    assert(unique_sources()[10]@.len() == 23 && unique_sources()[10]@[0] == 'm');
    assert(unique_sources()[11]@.len() == 8 && unique_sources()[11]@[0] == 'r');
    assert(unique_sources()[12]@.len() == 18 && unique_sources()[12]@[0] == 's');
    assert(unique_sources()[13]@.len() == 8 && unique_sources()[13]@[0] == 'w');
    assert(unique_sources()[14]@.len() == 28 && unique_sources()[14]@[0] == 's');
    assert(unique_sources()[15]@.len() == 5 && unique_sources()[15]@[0] == 'a');
    assert forall|i: int, j: int| 0 <= i < j < unique_sources().len() implies #[trigger] unique_sources()[i]@
        != #[trigger] unique_sources()[j]@ by {
        if unique_sources()[i]@ == unique_sources()[j]@ {
            assert(unique_sources()[i]@.len() == unique_sources()[j]@.len());
            assert(unique_sources()[i]@[0] == unique_sources()[j]@[0]);
        }
    }
}

} // verus!
