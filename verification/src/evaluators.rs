//! Per-conjunct evaluation functions.
//!
//! Each function takes the evidence for a model and returns a
//! `ConjunctStatus` from the thresholds of the specification. When several
//! evidence entries name the same source, the last one of the expected
//! value kind is used.

use crate::conjunct::ConjunctStatus;
use crate::evidence::{BoundedFraction, Evidence, NonNegativeHours, SourceValue};
use crate::sources;
use crate::text::text_eq;
use crate::threshold;
use vstd::prelude::*;

verus! {

/// The last fraction reported in `ev` under source `id`
/// (entries of that source that carry hours are skipped).
pub open spec fn latest_fraction(ev: Seq<Evidence>, id: Seq<char>) -> Option<BoundedFraction>
    decreases ev.len(),
{
    if ev.len() == 0 {
        None
    } else if ev.last().source@ == id && ev.last().value is Fraction {
        Some(ev.last().value->Fraction_0)
    } else {
        latest_fraction(ev.drop_last(), id)
    }
}

/// The last hour count reported in `ev` under source `id`
/// (entries of that source that carry fractions are skipped).
pub open spec fn latest_hours(ev: Seq<Evidence>, id: Seq<char>) -> Option<NonNegativeHours>
    decreases ev.len(),
{
    if ev.len() == 0 {
        None
    } else if ev.last().source@ == id && ev.last().value is Hours {
        Some(ev.last().value->Hours_0)
    } else {
        latest_hours(ev.drop_last(), id)
    }
}

/// 1 when `b` holds, else 0.
pub open spec fn one_if(b: bool) -> int {
    if b {
        1
    } else {
        0
    }
}

/// A reading is present and at or above the threshold.
pub open spec fn meets(f: Option<BoundedFraction>, threshold: u64) -> bool {
    f matches Some(v) && v@ >= threshold
}

/// Generality status from the four readings.
///
/// ARC-AGI-3 is mandatory; below its floor the conjunct fails; at least three
/// of the four sources must be present; then pass when every present source
/// meets its threshold, partial when some but not all do, fail when none do.
pub open spec fn generality_status_of(
    arc_agi_2: Option<BoundedFraction>,
    arc_agi_3: Option<BoundedFraction>,
    hle: Option<BoundedFraction>,
    gpqa: Option<BoundedFraction>,
) -> ConjunctStatus {
    match arc_agi_3 {
        None => ConjunctStatus::InsufficientData,
        Some(a3) => {
            if a3@ < threshold::generality::ARC_AGI_3_FLOOR {
                ConjunctStatus::Fail
            } else {
                let present = 1 + one_if(arc_agi_2 is Some) + one_if(hle is Some) + one_if(
                    gpqa is Some,
                );
                let passing = one_if(meets(arc_agi_2, threshold::generality::ARC_AGI_2_PASS))
                    + one_if(a3@ >= threshold::generality::ARC_AGI_3_PASS) + one_if(
                    meets(hle, threshold::generality::HLE_PASS),
                ) + one_if(meets(gpqa, threshold::generality::GPQA_DIAMOND_PASS));
                if present < 3 {
                    ConjunctStatus::InsufficientData
                } else if passing == present {
                    ConjunctStatus::Pass
                } else if passing > 0 {
                    ConjunctStatus::Partial
                } else {
                    ConjunctStatus::Fail
                }
            }
        },
    }
}

/// Generality status of a body of evidence.
pub open spec fn generality_status(ev: Seq<Evidence>) -> ConjunctStatus {
    generality_status_of(
        latest_fraction(ev, sources::generality::ARC_AGI_2@),
        latest_fraction(ev, sources::generality::ARC_AGI_3@),
        latest_fraction(ev, sources::generality::HLE@),
        latest_fraction(ev, sources::generality::GPQA_DIAMOND@),
    )
}

/// Economic substitutability status from the GDPval and RLI readings
/// (APEX-Agents is supplementary and not used).
pub open spec fn economic_status_of(
    gdpval: Option<BoundedFraction>,
    rli: Option<BoundedFraction>,
) -> ConjunctStatus {
    match (gdpval, rli) {
        (Some(g), Some(r)) => {
            if r@ < threshold::economic_substitutability::RLI_FLOOR {
                ConjunctStatus::Fail
            } else {
                let g_pass = g@ >= threshold::economic_substitutability::GDPVAL_PASS;
                let r_pass = r@ >= threshold::economic_substitutability::RLI_PASS;
                if g_pass && r_pass {
                    ConjunctStatus::Pass
                } else if g_pass || r_pass {
                    ConjunctStatus::Partial
                } else {
                    ConjunctStatus::Fail
                }
            }
        },
        _ => ConjunctStatus::InsufficientData,
    }
}

/// Economic substitutability status of a body of evidence.
pub open spec fn economic_status(ev: Seq<Evidence>) -> ConjunctStatus {
    economic_status_of(
        latest_fraction(ev, sources::economic_substitutability::GDPVAL@),
        latest_fraction(ev, sources::economic_substitutability::RLI@),
    )
}

/// A reading is present and below the floor.
pub open spec fn below(f: Option<BoundedFraction>, floor: u64) -> bool {
    f matches Some(v) && v@ < floor
}

/// A reading is absent, or present and below the floor.
pub open spec fn absent_or_below(f: Option<BoundedFraction>, floor: u64) -> bool {
    match f {
        Some(v) => v@ < floor,
        None => true,
    }
}

/// Environmental transfer status from the ARC-AGI-3, OSWorld and
/// Novel-Environment Subset (WebArena, SWE-bench Verified pass@1, ARIES)
/// readings.
///
/// Fail is checked first: ARC-AGI-3 below its floor, OSWorld below its floor,
/// or some NES source present and every present NES source below its own
/// floor. Then the minimum evidence: ARC-AGI-3, OSWorld and at least one NES
/// source. Then pass: ARC-AGI-3, OSWorld and at least one NES source each at
/// or above its threshold. Everything else is partial.
pub open spec fn environmental_status_of(
    arc_agi_3: Option<BoundedFraction>,
    osworld: Option<BoundedFraction>,
    webarena: Option<BoundedFraction>,
    swe_bench_pass_at_1: Option<BoundedFraction>,
    aries: Option<BoundedFraction>,
) -> ConjunctStatus {
    let nes_present = webarena is Some || swe_bench_pass_at_1 is Some || aries is Some;
    let nes_all_below = absent_or_below(webarena, threshold::environmental_transfer::WEBARENA_FLOOR)
        && absent_or_below(
        swe_bench_pass_at_1,
        threshold::environmental_transfer::SWE_BENCH_VERIFIED_PASS_AT_1_FLOOR,
    ) && absent_or_below(aries, threshold::environmental_transfer::ARIES_FLOOR);
    let nes_pass = meets(webarena, threshold::environmental_transfer::WEBARENA_PASS) || meets(
        swe_bench_pass_at_1,
        threshold::environmental_transfer::SWE_BENCH_VERIFIED_PASS_AT_1_PASS,
    ) || meets(aries, threshold::environmental_transfer::ARIES_PASS);
    if below(arc_agi_3, threshold::environmental_transfer::ARC_AGI_3_FLOOR) || below(
        osworld,
        threshold::environmental_transfer::OSWORLD_FLOOR,
    ) || (nes_present && nes_all_below) {
        ConjunctStatus::Fail
    } else if arc_agi_3 is None || osworld is None || !nes_present {
        ConjunctStatus::InsufficientData
    } else if meets(arc_agi_3, threshold::environmental_transfer::ARC_AGI_3_PASS) && meets(
        osworld,
        threshold::environmental_transfer::OSWORLD_PASS,
    ) && nes_pass {
        ConjunctStatus::Pass
    } else {
        ConjunctStatus::Partial
    }
}

/// Environmental transfer status of a body of evidence.
pub open spec fn environmental_status(ev: Seq<Evidence>) -> ConjunctStatus {
    environmental_status_of(
        latest_fraction(ev, sources::environmental_transfer::ARC_AGI_3@),
        latest_fraction(ev, sources::environmental_transfer::OSWORLD@),
        latest_fraction(ev, sources::environmental_transfer::WEBARENA@),
        latest_fraction(ev, sources::environmental_transfer::SWE_BENCH_VERIFIED_PASS_AT_1@),
        latest_fraction(ev, sources::environmental_transfer::ARIES@),
    )
}

/// Autonomous agency status from the METR horizon and the supporting readings.
///
/// METR is mandatory and below its floor the conjunct fails; a supporting
/// source must be present; pass when METR and a supporting source meet their
/// thresholds, partial when only one side does, fail otherwise.
pub open spec fn agency_status_of(
    metr: Option<NonNegativeHours>,
    rebench: Option<BoundedFraction>,
    swebench: Option<BoundedFraction>,
) -> ConjunctStatus {
    match metr {
        None => ConjunctStatus::InsufficientData,
        Some(m) => {
            if m@ < threshold::autonomous_agency::METR_80PCT_FLOOR_HOURS {
                ConjunctStatus::Fail
            } else if rebench is None && swebench is None {
                ConjunctStatus::InsufficientData
            } else {
                let metr_pass = m@ >= threshold::autonomous_agency::METR_80PCT_PASS_HOURS;
                let support_pass = meets(rebench, threshold::autonomous_agency::REBENCH_PASS)
                    || meets(swebench, threshold::autonomous_agency::SWEBENCH_VERIFIED_PASS_AT_5);
                if metr_pass && support_pass {
                    ConjunctStatus::Pass
                } else if metr_pass || support_pass {
                    ConjunctStatus::Partial
                } else {
                    ConjunctStatus::Fail
                }
            }
        },
    }
}

/// Autonomous agency status of a body of evidence.
pub open spec fn agency_status(ev: Seq<Evidence>) -> ConjunctStatus {
    agency_status_of(
        latest_hours(ev, sources::autonomous_agency::METR_80PCT_TIME_HORIZON@),
        latest_fraction(ev, sources::autonomous_agency::RE_BENCH@),
        latest_fraction(ev, sources::autonomous_agency::SWE_BENCH_VERIFIED@),
    )
}

/// Whether `e` reports a fraction under source `id`; if so, the fraction.
fn fraction_from(e: &Evidence, id: &str) -> (r: Option<BoundedFraction>)
    ensures
        r == (if e.source@ == id@ && e.value is Fraction {
            Some(e.value->Fraction_0)
        } else {
            None::<BoundedFraction>
        }),
{
    if text_eq(e.source.as_str(), id) {
        match e.value {
            SourceValue::Fraction(f) => Some(f),
            SourceValue::Hours(_) => None,
        }
    } else {
        None
    }
}

proof fn lemma_take_step(ev: Seq<Evidence>, i: int)
    requires
        0 <= i < ev.len(),
    ensures
        ev.take(i + 1).drop_last() == ev.take(i),
        ev.take(i + 1).last() == ev[i],
{
    assert(ev.take(i + 1).drop_last() =~= ev.take(i));
}

/// Evaluate the Generality conjunct.
///
/// Requires at least 3 of 4 sources (ARC-AGI-2, ARC-AGI-3, HLE, GPQA-Diamond)
/// with ARC-AGI-3 mandatory. Pass: all present sources meet thresholds;
/// Partial: at least one meets, at least one doesn't; Fail: no source meets
/// or ARC-AGI-3 below its floor; InsufficientData: minimum evidence unmet.
pub fn evaluate_generality(evidence: &[Evidence]) -> (s: ConjunctStatus)
    ensures
        s == generality_status(evidence@),
{
    let mut arc_agi_2: Option<BoundedFraction> = None;
    let mut arc_agi_3: Option<BoundedFraction> = None;
    let mut hle: Option<BoundedFraction> = None;
    let mut gpqa_diamond: Option<BoundedFraction> = None;
    let mut i: usize = 0;
    while i < evidence.len()
        invariant
            i <= evidence@.len(),
            arc_agi_2 == latest_fraction(evidence@.take(i as int), sources::generality::ARC_AGI_2@),
            arc_agi_3 == latest_fraction(evidence@.take(i as int), sources::generality::ARC_AGI_3@),
            hle == latest_fraction(evidence@.take(i as int), sources::generality::HLE@),
            gpqa_diamond == latest_fraction(
                evidence@.take(i as int),
                sources::generality::GPQA_DIAMOND@,
            ),
        decreases evidence@.len() - i,
    {
        let e = &evidence[i];
        proof {
            lemma_take_step(evidence@, i as int);
        }
        if let Some(f) = fraction_from(e, sources::generality::ARC_AGI_2) {
            arc_agi_2 = Some(f);
        }
        if let Some(f) = fraction_from(e, sources::generality::ARC_AGI_3) {
            arc_agi_3 = Some(f);
        }
        if let Some(f) = fraction_from(e, sources::generality::HLE) {
            hle = Some(f);
        }
        if let Some(f) = fraction_from(e, sources::generality::GPQA_DIAMOND) {
            gpqa_diamond = Some(f);
        }
        i = i + 1;
    }
    assert(evidence@.take(evidence@.len() as int) =~= evidence@);

    // ARC-AGI-3 is mandatory
    let arc_agi_3 = match arc_agi_3 {
        Some(f) => f,
        None => return ConjunctStatus::InsufficientData,
    };
    if arc_agi_3.value() < threshold::generality::ARC_AGI_3_FLOOR {
        return ConjunctStatus::Fail;
    }
    let mut present: u64 = 1;
    let mut passing: u64 = 0;
    if let Some(f) = arc_agi_2 {
        present = present + 1;
        if f.value() >= threshold::generality::ARC_AGI_2_PASS {
            passing = passing + 1;
        }
    }
    if arc_agi_3.value() >= threshold::generality::ARC_AGI_3_PASS {
        passing = passing + 1;
    }
    if let Some(f) = hle {
        present = present + 1;
        if f.value() >= threshold::generality::HLE_PASS {
            passing = passing + 1;
        }
    }
    if let Some(f) = gpqa_diamond {
        present = present + 1;
        if f.value() >= threshold::generality::GPQA_DIAMOND_PASS {
            passing = passing + 1;
        }
    }
    // Minimum evidence: at least 3 of 4 sources
    if present < 3 {
        ConjunctStatus::InsufficientData
    } else if passing == present {
        ConjunctStatus::Pass
    } else if passing > 0 {
        ConjunctStatus::Partial
    } else {
        ConjunctStatus::Fail
    }
}

/// Evaluate the Economic Substitutability conjunct.
///
/// Requires both GDPval and RLI (APEX-Agents is supplementary).
/// Pass: GDPval ≥85% and RLI ≥60%; Partial: one meets; Fail: neither meets,
/// or RLI below its floor; InsufficientData: a required source is missing.
pub fn evaluate_economic_substitutability(evidence: &[Evidence]) -> (s: ConjunctStatus)
    ensures
        s == economic_status(evidence@),
{
    let mut gdpval: Option<BoundedFraction> = None;
    let mut rli: Option<BoundedFraction> = None;
    let mut i: usize = 0;
    while i < evidence.len()
        invariant
            i <= evidence@.len(),
            gdpval == latest_fraction(
                evidence@.take(i as int),
                sources::economic_substitutability::GDPVAL@,
            ),
            rli == latest_fraction(evidence@.take(i as int), sources::economic_substitutability::RLI@),
        decreases evidence@.len() - i,
    {
        let e = &evidence[i];
        proof {
            lemma_take_step(evidence@, i as int);
        }
        if let Some(f) = fraction_from(e, sources::economic_substitutability::GDPVAL) {
            gdpval = Some(f);
        }
        if let Some(f) = fraction_from(e, sources::economic_substitutability::RLI) {
            rli = Some(f);
        }
        i = i + 1;
    }
    assert(evidence@.take(evidence@.len() as int) =~= evidence@);

    let gdpval = match gdpval {
        Some(f) => f,
        None => return ConjunctStatus::InsufficientData,
    };
    let rli = match rli {
        Some(f) => f,
        None => return ConjunctStatus::InsufficientData,
    };
    if rli.value() < threshold::economic_substitutability::RLI_FLOOR {
        return ConjunctStatus::Fail;
    }
    let gdpval_pass = gdpval.value() >= threshold::economic_substitutability::GDPVAL_PASS;
    let rli_pass = rli.value() >= threshold::economic_substitutability::RLI_PASS;
    if gdpval_pass && rli_pass {
        ConjunctStatus::Pass
    } else if gdpval_pass || rli_pass {
        ConjunctStatus::Partial
    } else {
        ConjunctStatus::Fail
    }
}

/// Whether a reading is absent, or present and below the floor.
fn absent_or_below_exec(f: Option<BoundedFraction>, floor: u64) -> (r: bool)
    ensures
        r == absent_or_below(f, floor),
{
    match f {
        Some(v) => v.value() < floor,
        None => true,
    }
}

/// Whether a reading is present and at or above the threshold.
fn meets_exec(f: Option<BoundedFraction>, threshold: u64) -> (r: bool)
    ensures
        r == meets(f, threshold),
{
    match f {
        Some(v) => v.value() >= threshold,
        None => false,
    }
}

/// Evaluate the Environmental Transfer conjunct.
///
/// Requires ARC-AGI-3, OSWorld and at least one Novel-Environment Subset
/// source (WebArena, SWE-bench Verified pass@1, ARIES). Fail: ARC-AGI-3 < 5%,
/// OSWorld < 3%, or every present NES source below its floor (checked first);
/// InsufficientData: minimum evidence unmet; Pass: ARC-AGI-3 ≥50%, OSWorld
/// ≥20% and at least one NES source at its threshold; Partial otherwise.
pub fn evaluate_environmental_transfer(evidence: &[Evidence]) -> (s: ConjunctStatus)
    ensures
        s == environmental_status(evidence@),
{
    let mut arc_agi_3: Option<BoundedFraction> = None;
    let mut osworld: Option<BoundedFraction> = None;
    let mut webarena: Option<BoundedFraction> = None;
    let mut swe_bench: Option<BoundedFraction> = None;
    let mut aries: Option<BoundedFraction> = None;
    let mut i: usize = 0;
    while i < evidence.len()
        invariant
            i <= evidence@.len(),
            arc_agi_3 == latest_fraction(
                evidence@.take(i as int),
                sources::environmental_transfer::ARC_AGI_3@,
            ),
            osworld == latest_fraction(
                evidence@.take(i as int),
                sources::environmental_transfer::OSWORLD@,
            ),
            webarena == latest_fraction(
                evidence@.take(i as int),
                sources::environmental_transfer::WEBARENA@,
            ),
            swe_bench == latest_fraction(
                evidence@.take(i as int),
                sources::environmental_transfer::SWE_BENCH_VERIFIED_PASS_AT_1@,
            ),
            aries == latest_fraction(
                evidence@.take(i as int),
                sources::environmental_transfer::ARIES@,
            ),
        decreases evidence@.len() - i,
    {
        let e = &evidence[i];
        proof {
            lemma_take_step(evidence@, i as int);
        }
        if let Some(f) = fraction_from(e, sources::environmental_transfer::ARC_AGI_3) {
            arc_agi_3 = Some(f);
        }
        if let Some(f) = fraction_from(e, sources::environmental_transfer::OSWORLD) {
            osworld = Some(f);
        }
        if let Some(f) = fraction_from(e, sources::environmental_transfer::WEBARENA) {
            webarena = Some(f);
        }
        if let Some(f) = fraction_from(e, sources::environmental_transfer::SWE_BENCH_VERIFIED_PASS_AT_1) {
            swe_bench = Some(f);
        }
        if let Some(f) = fraction_from(e, sources::environmental_transfer::ARIES) {
            aries = Some(f);
        }
        i = i + 1;
    }
    assert(evidence@.take(evidence@.len() as int) =~= evidence@);

    let nes_present = webarena.is_some() || swe_bench.is_some() || aries.is_some();
    let nes_all_below = absent_or_below_exec(webarena, threshold::environmental_transfer::WEBARENA_FLOOR)
        && absent_or_below_exec(
        swe_bench,
        threshold::environmental_transfer::SWE_BENCH_VERIFIED_PASS_AT_1_FLOOR,
    ) && absent_or_below_exec(aries, threshold::environmental_transfer::ARIES_FLOOR);
    // Fail is checked first: any required source below its own floor
    let arc_below = match arc_agi_3 {
        Some(f) => f.value() < threshold::environmental_transfer::ARC_AGI_3_FLOOR,
        None => false,
    };
    let osworld_below = match osworld {
        Some(f) => f.value() < threshold::environmental_transfer::OSWORLD_FLOOR,
        None => false,
    };
    if arc_below || osworld_below || (nes_present && nes_all_below) {
        return ConjunctStatus::Fail;
    }
    if arc_agi_3.is_none() || osworld.is_none() || !nes_present {
        return ConjunctStatus::InsufficientData;
    }
    let nes_pass = meets_exec(webarena, threshold::environmental_transfer::WEBARENA_PASS)
        || meets_exec(swe_bench, threshold::environmental_transfer::SWE_BENCH_VERIFIED_PASS_AT_1_PASS)
        || meets_exec(aries, threshold::environmental_transfer::ARIES_PASS);
    if meets_exec(arc_agi_3, threshold::environmental_transfer::ARC_AGI_3_PASS) && meets_exec(
        osworld,
        threshold::environmental_transfer::OSWORLD_PASS,
    ) && nes_pass {
        ConjunctStatus::Pass
    } else {
        ConjunctStatus::Partial
    }
}

/// Whether `e` reports hours under source `id`; if so, the hours.
fn hours_from(e: &Evidence, id: &str) -> (r: Option<NonNegativeHours>)
    ensures
        r == (if e.source@ == id@ && e.value is Hours {
            Some(e.value->Hours_0)
        } else {
            None::<NonNegativeHours>
        }),
{
    if text_eq(e.source.as_str(), id) {
        match e.value {
            SourceValue::Hours(h) => Some(h),
            SourceValue::Fraction(_) => None,
        }
    } else {
        None
    }
}

/// Evaluate the Autonomous Agency conjunct.
///
/// Requires the METR 80%-time horizon (mandatory) and at least one of RE-Bench
/// or SWE-bench Verified. Pass: METR ≥168h and (RE-Bench ≥60% or SWE-bench
/// ≥85%); Partial: only one side meets; Fail: METR < 8h or nothing meets;
/// InsufficientData: METR missing or no supporting source.
pub fn evaluate_autonomous_agency(evidence: &[Evidence]) -> (s: ConjunctStatus)
    ensures
        s == agency_status(evidence@),
{
    let mut metr: Option<NonNegativeHours> = None;
    let mut rebench: Option<BoundedFraction> = None;
    let mut swebench: Option<BoundedFraction> = None;
    let mut i: usize = 0;
    while i < evidence.len()
        invariant
            i <= evidence@.len(),
            metr == latest_hours(
                evidence@.take(i as int),
                sources::autonomous_agency::METR_80PCT_TIME_HORIZON@,
            ),
            rebench == latest_fraction(evidence@.take(i as int), sources::autonomous_agency::RE_BENCH@),
            swebench == latest_fraction(evidence@.take(i as int), sources::autonomous_agency::SWE_BENCH_VERIFIED@),
        decreases evidence@.len() - i,
    {
        let e = &evidence[i];
        proof {
            lemma_take_step(evidence@, i as int);
        }
        if let Some(h) = hours_from(e, sources::autonomous_agency::METR_80PCT_TIME_HORIZON) {
            metr = Some(h);
        }
        if let Some(f) = fraction_from(e, sources::autonomous_agency::RE_BENCH) {
            rebench = Some(f);
        }
        if let Some(f) = fraction_from(e, sources::autonomous_agency::SWE_BENCH_VERIFIED) {
            swebench = Some(f);
        }
        i = i + 1;
    }
    assert(evidence@.take(evidence@.len() as int) =~= evidence@);

    let metr = match metr {
        Some(h) => h,
        None => return ConjunctStatus::InsufficientData,
    };
    if metr.value() < threshold::autonomous_agency::METR_80PCT_FLOOR_HOURS {
        return ConjunctStatus::Fail;
    }
    if rebench.is_none() && swebench.is_none() {
        return ConjunctStatus::InsufficientData;
    }
    let metr_pass = metr.value() >= threshold::autonomous_agency::METR_80PCT_PASS_HOURS;
    let rebench_pass = match rebench {
        Some(f) => f.value() >= threshold::autonomous_agency::REBENCH_PASS,
        None => false,
    };
    let swebench_pass = match swebench {
        Some(f) => f.value() >= threshold::autonomous_agency::SWEBENCH_VERIFIED_PASS_AT_5,
        None => false,
    };
    if metr_pass && (rebench_pass || swebench_pass) {
        ConjunctStatus::Pass
    } else if metr_pass || rebench_pass || swebench_pass {
        ConjunctStatus::Partial
    } else {
        ConjunctStatus::Fail
    }
}

} // verus!
