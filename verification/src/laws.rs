//! Laws of the attestation rules.
//!
//! Properties that hold of every body of evidence and every combination of
//! statuses, stated over the same spec functions the evaluators, the
//! consistency check and the verdict table promise in their contracts.

use crate::attest::statuses_of;
use crate::conjunct::ConjunctStatus;
use crate::consistency::{
    all_pass, below_half, entry_margins, failed_rules_of, margin_pairs, masking_pattern,
    source_thresholds, variance_rule_fails, variance_violated,
};
use crate::evaluators::{
    absent_or_below, agency_status, agency_status_of, below, meets, economic_status, economic_status_of, environmental_status,
    environmental_status_of, generality_status, generality_status_of, latest_fraction,
    latest_hours,
};
use crate::evidence::{BoundedFraction, Evidence, NonNegativeHours, SourceValue};
use crate::fixtures::{record_evidence, FixtureRecord};
use crate::schema::opt_text;
use crate::sources::{lemma_unique_sources_are_distinct, unique_sources};
use crate::sources;
use crate::threshold;
use crate::verdict::{any_status, every_pass, verdict_kind};
use vstd::prelude::*;

verus! {

/// The source IDs some conjunct evaluator reads.
pub open spec fn evaluated_source(id: Seq<char>) -> bool {
    ||| id == sources::generality::ARC_AGI_2@
    ||| id == sources::generality::ARC_AGI_3@
    ||| id == sources::generality::HLE@
    ||| id == sources::generality::GPQA_DIAMOND@
    ||| id == sources::economic_substitutability::GDPVAL@
    ||| id == sources::economic_substitutability::RLI@
    ||| id == sources::environmental_transfer::ARC_AGI_3@
    ||| id == sources::environmental_transfer::OSWORLD@
    ||| id == sources::environmental_transfer::WEBARENA@
    ||| id == sources::environmental_transfer::SWE_BENCH_VERIFIED_PASS_AT_1@
    ||| id == sources::environmental_transfer::ARIES@
    ||| id == sources::autonomous_agency::METR_80PCT_TIME_HORIZON@
    ||| id == sources::autonomous_agency::RE_BENCH@
    ||| id == sources::autonomous_agency::SWE_BENCH_VERIFIED@
}

proof fn lemma_push_other_fraction(ev: Seq<Evidence>, e: Evidence, id: Seq<char>)
    requires
        e.source@ != id,
    ensures
        latest_fraction(ev.push(e), id) == latest_fraction(ev, id),
{
    assert(ev.push(e).drop_last() =~= ev);
}

proof fn lemma_push_other_hours(ev: Seq<Evidence>, e: Evidence, id: Seq<char>)
    requires
        e.source@ != id,
    ensures
        latest_hours(ev.push(e), id) == latest_hours(ev, id),
{
    assert(ev.push(e).drop_last() =~= ev);
}

/// Evidence from a source that no evaluator reads leaves all four conjunct
/// statuses unchanged, wherever it is appended.
pub proof fn law_unread_source_keeps_statuses(ev: Seq<Evidence>, e: Evidence)
    requires
        !evaluated_source(e.source@),
    ensures
        statuses_of(ev.push(e)) == statuses_of(ev),
{
    lemma_push_other_fraction(ev, e, sources::generality::ARC_AGI_2@);
    lemma_push_other_fraction(ev, e, sources::generality::ARC_AGI_3@);
    lemma_push_other_fraction(ev, e, sources::generality::HLE@);
    lemma_push_other_fraction(ev, e, sources::generality::GPQA_DIAMOND@);
    lemma_push_other_fraction(ev, e, sources::economic_substitutability::GDPVAL@);
    lemma_push_other_fraction(ev, e, sources::economic_substitutability::RLI@);
    lemma_push_other_fraction(ev, e, sources::environmental_transfer::ARC_AGI_3@);
    lemma_push_other_fraction(ev, e, sources::environmental_transfer::OSWORLD@);
    lemma_push_other_fraction(ev, e, sources::environmental_transfer::WEBARENA@);
    lemma_push_other_fraction(ev, e, sources::environmental_transfer::SWE_BENCH_VERIFIED_PASS_AT_1@);
    lemma_push_other_fraction(ev, e, sources::environmental_transfer::ARIES@);
    lemma_push_other_hours(ev, e, sources::autonomous_agency::METR_80PCT_TIME_HORIZON@);
    lemma_push_other_fraction(ev, e, sources::autonomous_agency::RE_BENCH@);
    lemma_push_other_fraction(ev, e, sources::autonomous_agency::SWE_BENCH_VERIFIED@);
    assert(statuses_of(ev.push(e)) =~= statuses_of(ev));
}

/// When a source is reported more than once, the last report is the one
/// evaluated: appending a reading makes it the source's reading.
pub proof fn law_latest_reading_wins(ev: Seq<Evidence>, e: Evidence)
    ensures
        e.value matches SourceValue::Fraction(f) ==> latest_fraction(ev.push(e), e.source@)
            == Some(f),
        e.value matches SourceValue::Hours(h) ==> latest_hours(ev.push(e), e.source@) == Some(h),
{
}

proof fn lemma_swap_fraction(
    p: Seq<Evidence>,
    x: Evidence,
    y: Evidence,
    s: Seq<Evidence>,
    id: Seq<char>,
)
    requires
        x.source@ != y.source@,
    ensures
        latest_fraction(p + seq![x, y] + s, id) == latest_fraction(p + seq![y, x] + s, id),
    decreases s.len(),
{
    let a = p + seq![x, y] + s;
    let b = p + seq![y, x] + s;
    if s.len() == 0 {
        assert(a.drop_last() =~= p.push(x));
        assert(b.drop_last() =~= p.push(y));
        assert(p.push(x).drop_last() =~= p);
        assert(p.push(y).drop_last() =~= p);
        assert(a.last() == y && b.last() == x);
        assert(latest_fraction(p.push(x), id) == if x.source@ == id && x.value is Fraction {
            Some(x.value->Fraction_0)
        } else {
            latest_fraction(p, id)
        });
        assert(latest_fraction(p.push(y), id) == if y.source@ == id && y.value is Fraction {
            Some(y.value->Fraction_0)
        } else {
            latest_fraction(p, id)
        });
    } else {
        lemma_swap_fraction(p, x, y, s.drop_last(), id);
        assert(a.drop_last() =~= p + seq![x, y] + s.drop_last());
        assert(b.drop_last() =~= p + seq![y, x] + s.drop_last());
        assert(a.last() == s.last() && b.last() == s.last());
    }
}

proof fn lemma_swap_hours(
    p: Seq<Evidence>,
    x: Evidence,
    y: Evidence,
    s: Seq<Evidence>,
    id: Seq<char>,
)
    requires
        x.source@ != y.source@,
    ensures
        latest_hours(p + seq![x, y] + s, id) == latest_hours(p + seq![y, x] + s, id),
    decreases s.len(),
{
    let a = p + seq![x, y] + s;
    let b = p + seq![y, x] + s;
    if s.len() == 0 {
        assert(a.drop_last() =~= p.push(x));
        assert(b.drop_last() =~= p.push(y));
        assert(p.push(x).drop_last() =~= p);
        assert(p.push(y).drop_last() =~= p);
        assert(a.last() == y && b.last() == x);
        assert(latest_hours(p.push(x), id) == if x.source@ == id && x.value is Hours {
            Some(x.value->Hours_0)
        } else {
            latest_hours(p, id)
        });
        assert(latest_hours(p.push(y), id) == if y.source@ == id && y.value is Hours {
            Some(y.value->Hours_0)
        } else {
            latest_hours(p, id)
        });
    } else {
        lemma_swap_hours(p, x, y, s.drop_last(), id);
        assert(a.drop_last() =~= p + seq![x, y] + s.drop_last());
        assert(b.drop_last() =~= p + seq![y, x] + s.drop_last());
        assert(a.last() == s.last() && b.last() == s.last());
    }
}

/// Only the order of reports of the same source matters: exchanging two
/// neighbouring reports of different sources leaves all four conjunct
/// statuses unchanged.
pub proof fn law_order_across_sources_irrelevant(
    before: Seq<Evidence>,
    x: Evidence,
    y: Evidence,
    after: Seq<Evidence>,
)
    requires
        x.source@ != y.source@,
    ensures
        statuses_of(before + seq![x, y] + after) == statuses_of(before + seq![y, x] + after),
{
    lemma_swap_fraction(before, x, y, after, sources::generality::ARC_AGI_2@);
    lemma_swap_fraction(before, x, y, after, sources::generality::ARC_AGI_3@);
    lemma_swap_fraction(before, x, y, after, sources::generality::HLE@);
    lemma_swap_fraction(before, x, y, after, sources::generality::GPQA_DIAMOND@);
    lemma_swap_fraction(before, x, y, after, sources::economic_substitutability::GDPVAL@);
    lemma_swap_fraction(before, x, y, after, sources::economic_substitutability::RLI@);
    lemma_swap_fraction(before, x, y, after, sources::environmental_transfer::ARC_AGI_3@);
    lemma_swap_fraction(before, x, y, after, sources::environmental_transfer::OSWORLD@);
    lemma_swap_fraction(before, x, y, after, sources::environmental_transfer::WEBARENA@);
    lemma_swap_fraction(before, x, y, after, sources::environmental_transfer::SWE_BENCH_VERIFIED_PASS_AT_1@);
    lemma_swap_fraction(before, x, y, after, sources::environmental_transfer::ARIES@);
    lemma_swap_hours(before, x, y, after, sources::autonomous_agency::METR_80PCT_TIME_HORIZON@);
    lemma_swap_fraction(before, x, y, after, sources::autonomous_agency::RE_BENCH@);
    lemma_swap_fraction(before, x, y, after, sources::autonomous_agency::SWE_BENCH_VERIFIED@);
    assert(statuses_of(before + seq![x, y] + after) =~= statuses_of(before + seq![y, x] + after));
}

/// Missing mandatory evidence gives insufficient_data: ARC-AGI-3 for
/// generality, the METR horizon for autonomous agency, GDPval and RLI for
/// economic substitutability. For environmental transfer, whose floors are
/// checked first, missing ARC-AGI-3 or OSWorld gives insufficient_data or fail.
pub proof fn law_mandatory_sources(ev: Seq<Evidence>)
    ensures
        latest_fraction(ev, sources::generality::ARC_AGI_3@) is None ==> generality_status(ev)
            == ConjunctStatus::InsufficientData,
        latest_fraction(ev, sources::environmental_transfer::ARC_AGI_3@) is None
            ==> environmental_status(ev) == ConjunctStatus::InsufficientData
            || environmental_status(ev) == ConjunctStatus::Fail,
        latest_fraction(ev, sources::environmental_transfer::OSWORLD@) is None
            ==> environmental_status(ev) == ConjunctStatus::InsufficientData
            || environmental_status(ev) == ConjunctStatus::Fail,
        latest_hours(ev, sources::autonomous_agency::METR_80PCT_TIME_HORIZON@) is None
            ==> agency_status(ev) == ConjunctStatus::InsufficientData,
        latest_fraction(ev, sources::economic_substitutability::GDPVAL@) is None ==> economic_status(
            ev,
        ) == ConjunctStatus::InsufficientData,
        latest_fraction(ev, sources::economic_substitutability::RLI@) is None ==> economic_status(ev)
            == ConjunctStatus::InsufficientData,
{
}

/// Some Novel-Environment Subset source is reported and every reported one
/// is below its own floor.
pub open spec fn nes_all_below_floors(ev: Seq<Evidence>) -> bool {
    let w = latest_fraction(ev, sources::environmental_transfer::WEBARENA@);
    let s = latest_fraction(ev, sources::environmental_transfer::SWE_BENCH_VERIFIED_PASS_AT_1@);
    let a = latest_fraction(ev, sources::environmental_transfer::ARIES@);
    &&& (w is Some || s is Some || a is Some)
    &&& absent_or_below(w, threshold::environmental_transfer::WEBARENA_FLOOR)
    &&& absent_or_below(s, threshold::environmental_transfer::SWE_BENCH_VERIFIED_PASS_AT_1_FLOOR)
    &&& absent_or_below(a, threshold::environmental_transfer::ARIES_FLOOR)
}

/// A reading below its floor fails the conjunct, whatever the other readings.
pub proof fn law_floors_fail(ev: Seq<Evidence>)
    ensures
        (latest_fraction(ev, sources::generality::ARC_AGI_3@) matches Some(a) && a@
            < threshold::generality::ARC_AGI_3_FLOOR) ==> generality_status(ev)
            == ConjunctStatus::Fail,
        (latest_fraction(ev, sources::environmental_transfer::ARC_AGI_3@) matches Some(a) && a@
            < threshold::environmental_transfer::ARC_AGI_3_FLOOR) ==> environmental_status(ev)
            == ConjunctStatus::Fail,
        (latest_fraction(ev, sources::environmental_transfer::OSWORLD@) matches Some(o) && o@
            < threshold::environmental_transfer::OSWORLD_FLOOR) ==> environmental_status(ev)
            == ConjunctStatus::Fail,
        nes_all_below_floors(ev) ==> environmental_status(ev) == ConjunctStatus::Fail,
        (latest_hours(ev, sources::autonomous_agency::METR_80PCT_TIME_HORIZON@) matches Some(m)
            && m@ < threshold::autonomous_agency::METR_80PCT_FLOOR_HOURS) ==> agency_status(ev)
            == ConjunctStatus::Fail,
        latest_fraction(ev, sources::economic_substitutability::GDPVAL@) is Some ==> ((
        latest_fraction(ev, sources::economic_substitutability::RLI@) matches Some(r) && r@
            < threshold::economic_substitutability::RLI_FLOOR) ==> economic_status(ev)
            == ConjunctStatus::Fail),
{
}

/// `new` reports the same source as `old` (or neither does), at a value no lower.
pub open spec fn fraction_no_lower(new: Option<BoundedFraction>, old: Option<BoundedFraction>) -> bool {
    match (new, old) {
        (Some(n), Some(o)) => n@ >= o@,
        (None, None) => true,
        _ => false,
    }
}

/// `new` reports the same horizon as `old` (or neither does), at no fewer hours.
pub open spec fn hours_no_lower(new: Option<NonNegativeHours>, old: Option<NonNegativeHours>) -> bool {
    match (new, old) {
        (Some(n), Some(o)) => n@ >= o@,
        (None, None) => true,
        _ => false,
    }
}

/// Pass or partial.
pub open spec fn at_least_partial(s: ConjunctStatus) -> bool {
    s == ConjunctStatus::Pass || s == ConjunctStatus::Partial
}

/// Better scores never hurt generality: with the same sources present and no
/// reading lower, a pass stays a pass and a partial stays at least partial.
pub proof fn law_generality_monotone(
    a2: Option<BoundedFraction>,
    a3: Option<BoundedFraction>,
    hle: Option<BoundedFraction>,
    gpqa: Option<BoundedFraction>,
    b2: Option<BoundedFraction>,
    b3: Option<BoundedFraction>,
    bhle: Option<BoundedFraction>,
    bgpqa: Option<BoundedFraction>,
)
    requires
        fraction_no_lower(b2, a2),
        fraction_no_lower(b3, a3),
        fraction_no_lower(bhle, hle),
        fraction_no_lower(bgpqa, gpqa),
    ensures
        generality_status_of(a2, a3, hle, gpqa) == ConjunctStatus::Pass ==> generality_status_of(
            b2,
            b3,
            bhle,
            bgpqa,
        ) == ConjunctStatus::Pass,
        at_least_partial(generality_status_of(a2, a3, hle, gpqa)) ==> at_least_partial(
            generality_status_of(b2, b3, bhle, bgpqa),
        ),
{
}

/// Better scores never hurt economic substitutability.
pub proof fn law_economic_monotone(
    gdpval: Option<BoundedFraction>,
    rli: Option<BoundedFraction>,
    bgdpval: Option<BoundedFraction>,
    brli: Option<BoundedFraction>,
)
    requires
        fraction_no_lower(bgdpval, gdpval),
        fraction_no_lower(brli, rli),
    ensures
        economic_status_of(gdpval, rli) == ConjunctStatus::Pass ==> economic_status_of(bgdpval, brli)
            == ConjunctStatus::Pass,
        at_least_partial(economic_status_of(gdpval, rli)) ==> at_least_partial(
            economic_status_of(bgdpval, brli),
        ),
{
}

/// Better scores never hurt environmental transfer.
pub proof fn law_environmental_monotone(
    a3: Option<BoundedFraction>,
    osworld: Option<BoundedFraction>,
    webarena: Option<BoundedFraction>,
    swe: Option<BoundedFraction>,
    aries: Option<BoundedFraction>,
    b3: Option<BoundedFraction>,
    bosworld: Option<BoundedFraction>,
    bwebarena: Option<BoundedFraction>,
    bswe: Option<BoundedFraction>,
    baries: Option<BoundedFraction>,
)
    requires
        fraction_no_lower(b3, a3),
        fraction_no_lower(bosworld, osworld),
        fraction_no_lower(bwebarena, webarena),
        fraction_no_lower(bswe, swe),
        fraction_no_lower(baries, aries),
    ensures
        environmental_status_of(a3, osworld, webarena, swe, aries) == ConjunctStatus::Pass
            ==> environmental_status_of(b3, bosworld, bwebarena, bswe, baries)
            == ConjunctStatus::Pass,
        at_least_partial(environmental_status_of(a3, osworld, webarena, swe, aries))
            ==> at_least_partial(environmental_status_of(b3, bosworld, bwebarena, bswe, baries)),
{
}

/// Better scores never hurt autonomous agency.
pub proof fn law_agency_monotone(
    metr: Option<NonNegativeHours>,
    rebench: Option<BoundedFraction>,
    swebench: Option<BoundedFraction>,
    bmetr: Option<NonNegativeHours>,
    brebench: Option<BoundedFraction>,
    bswebench: Option<BoundedFraction>,
)
    requires
        hours_no_lower(bmetr, metr),
        fraction_no_lower(brebench, rebench),
        fraction_no_lower(bswebench, swebench),
    ensures
        agency_status_of(metr, rebench, swebench) == ConjunctStatus::Pass ==> agency_status_of(
            bmetr,
            brebench,
            bswebench,
        ) == ConjunctStatus::Pass,
        at_least_partial(agency_status_of(metr, rebench, swebench)) ==> at_least_partial(
            agency_status_of(bmetr, brebench, bswebench),
        ),
{
}

/// The verdict table: attested exactly when all four conjuncts pass and the
/// consistency check passes; all four passing with a failed consistency check
/// is not_attested; a failing conjunct is not_attested (fail dominates
/// insufficient_data); insufficient data without a failure is
/// insufficient_data; a partial without insufficient data is not_attested.
pub proof fn law_verdict_table(st: Seq<ConjunctStatus>, consistency_passed: bool)
    requires
        st.len() == 4,
    ensures
        verdict_kind(st, consistency_passed) == 0 <==> (every_pass(st) && consistency_passed),
        every_pass(st) && !consistency_passed ==> verdict_kind(st, consistency_passed) == 1,
        any_status(st, ConjunctStatus::Fail) ==> verdict_kind(st, consistency_passed) == 1,
        any_status(st, ConjunctStatus::InsufficientData) && !any_status(st, ConjunctStatus::Fail)
            ==> verdict_kind(st, consistency_passed) == 2,
        any_status(st, ConjunctStatus::Partial) && !any_status(st, ConjunctStatus::InsufficientData)
            ==> verdict_kind(st, consistency_passed) == 1,
{
    if any_status(st, ConjunctStatus::Fail) {
        let i = choose|i: int| 0 <= i < 4 && st[i] == ConjunctStatus::Fail;
        assert(st[i] != ConjunctStatus::Pass);
    }
    if any_status(st, ConjunctStatus::InsufficientData) {
        let i = choose|i: int| 0 <= i < 4 && st[i] == ConjunctStatus::InsufficientData;
        assert(st[i] != ConjunctStatus::Pass);
    }
    if any_status(st, ConjunctStatus::Partial) {
        let i = choose|i: int| 0 <= i < 4 && st[i] == ConjunctStatus::Partial;
        assert(st[i] != ConjunctStatus::Pass);
    }
}

/// The variance rule applies only when all four conjuncts pass.
pub proof fn law_variance_only_when_all_pass(ev: Seq<Evidence>, st: Seq<ConjunctStatus>)
    requires
        !all_pass(st),
    ensures
        !variance_rule_fails(ev, st),
{
}

/// A masking pattern (three conjuncts pass, one lacks evidence) always fails
/// the consistency check, and the verdict is insufficient_data.
pub proof fn law_masking_fails_consistency(ev: Seq<Evidence>, st: Seq<ConjunctStatus>)
    requires
        st.len() == 4,
        masking_pattern(st),
    ensures
        failed_rules_of(ev, st).len() > 0,
        verdict_kind(st, failed_rules_of(ev, st).len() == 0) == 2,
{
    let i: int = if st[0] == ConjunctStatus::InsufficientData {
        0
    } else if st[1] == ConjunctStatus::InsufficientData {
        1
    } else if st[2] == ConjunctStatus::InsufficientData {
        2
    } else {
        3
    };
    assert(st[i] == ConjunctStatus::InsufficientData);
    assert(any_status(st, ConjunctStatus::InsufficientData));
    assert(!any_status(st, ConjunctStatus::Fail)) by {
        if any_status(st, ConjunctStatus::Fail) {
            let j = choose|j: int| 0 <= j < 4 && st[j] == ConjunctStatus::Fail;
            assert(st[j] == ConjunctStatus::Fail);
        }
    }
    law_verdict_table(st, failed_rules_of(ev, st).len() == 0);
}

/// Evidence without an ARC-AGI-3 reading is never attested.
pub proof fn law_no_arc_agi_3_never_attested(ev: Seq<Evidence>)
    requires
        latest_fraction(ev, sources::generality::ARC_AGI_3@) is None,
    ensures
        forall|consistency_passed: bool| verdict_kind(statuses_of(ev), consistency_passed) != 0,
{
    law_mandatory_sources(ev);
    assert forall|consistency_passed: bool|
        verdict_kind(statuses_of(ev), consistency_passed) != 0 by {
        law_verdict_table(statuses_of(ev), consistency_passed);
        assert(statuses_of(ev)[0] != ConjunctStatus::Pass);
    }
}

/// Evidence with an ARC-AGI-3 reading below the floor is not_attested, even
/// when other conjuncts lack evidence.
pub proof fn law_arc_agi_3_below_floor_not_attested(ev: Seq<Evidence>)
    requires
        latest_fraction(ev, sources::generality::ARC_AGI_3@) matches Some(a) && a@
            < threshold::generality::ARC_AGI_3_FLOOR,
    ensures
        forall|consistency_passed: bool| verdict_kind(statuses_of(ev), consistency_passed) == 1,
{
    law_floors_fail(ev);
    assert(statuses_of(ev)[0] == ConjunctStatus::Fail);
    assert(any_status(statuses_of(ev), ConjunctStatus::Fail));
    assert forall|consistency_passed: bool|
        verdict_kind(statuses_of(ev), consistency_passed) == 1 by {
        law_verdict_table(statuses_of(ev), consistency_passed);
    }
}

/// The source IDs of each conjunct, in conjunct order: the lists of the
/// `sources` modules, with the Novel-Environment Subset sources counted under
/// environmental transfer.
pub open spec fn conjunct_sources(k: int) -> Seq<Seq<char>> {
    if k == 0 {
        seq![
            sources::generality::ARC_AGI_2@,
            sources::generality::ARC_AGI_3@,
            sources::generality::HLE@,
            sources::generality::GPQA_DIAMOND@,
        ]
    } else if k == 1 {
        seq![
            sources::economic_substitutability::GDPVAL@,
            sources::economic_substitutability::GDPVAL_AA@,
            sources::economic_substitutability::RLI@,
            sources::economic_substitutability::APEX_AGENTS@,
        ]
    } else if k == 2 {
        seq![
            sources::environmental_transfer::ARC_AGI_3@,
            sources::environmental_transfer::OSWORLD@,
            sources::environmental_transfer::NES@,
            sources::environmental_transfer::WEBARENA@,
            sources::environmental_transfer::SWE_BENCH_VERIFIED_PASS_AT_1@,
            sources::environmental_transfer::ARIES@,
        ]
    } else {
        seq![
            sources::autonomous_agency::METR_80PCT_TIME_HORIZON@,
            sources::autonomous_agency::RE_BENCH@,
            sources::autonomous_agency::SWE_BENCH_VERIFIED@,
        ]
    }
}

/// `id` is one of the canonical source IDs.
pub open spec fn listed_source(id: Seq<char>) -> bool {
    exists|i: int| 0 <= i < unique_sources().len() && unique_sources()[i]@ == id
}

/// A threshold entry of source `id` is sound: it names a conjunct whose list
/// holds the source, its pass threshold is positive, and its floor, if any,
/// lies below the pass threshold.
pub open spec fn threshold_entry_ok(id: Seq<char>, t: (usize, u64, Option<u64>)) -> bool {
    &&& t.0 < 4
    &&& conjunct_sources(t.0 as int).contains(id)
    &&& t.1 > 0
    &&& match t.2 {
        Some(f) => f < t.1,
        None => true,
    }
}

proof fn lemma_contains3(a: Seq<char>, b: Seq<char>, c: Seq<char>, x: Seq<char>)
    ensures
        seq![a, b, c].contains(x) <==> (x == a || x == b || x == c),
{
    let s = seq![a, b, c];
    if x == a {
        assert(s[0] == x);
    } else if x == b {
        assert(s[1] == x);
    } else if x == c {
        assert(s[2] == x);
    }
}

proof fn lemma_contains4(a: Seq<char>, b: Seq<char>, c: Seq<char>, d: Seq<char>, x: Seq<char>)
    ensures
        seq![a, b, c, d].contains(x) <==> (x == a || x == b || x == c || x == d),
{
    let s = seq![a, b, c, d];
    if x == a {
        assert(s[0] == x);
    } else if x == b {
        assert(s[1] == x);
    } else if x == c {
        assert(s[2] == x);
    } else if x == d {
        assert(s[3] == x);
    }
}

proof fn lemma_contains6(
    a: Seq<char>,
    b: Seq<char>,
    c: Seq<char>,
    d: Seq<char>,
    e: Seq<char>,
    f: Seq<char>,
    x: Seq<char>,
)
    ensures
        seq![a, b, c, d, e, f].contains(x) <==> (x == a || x == b || x == c || x == d || x == e
            || x == f),
{
    let s = seq![a, b, c, d, e, f];
    if x == a {
        assert(s[0] == x);
    } else if x == b {
        assert(s[1] == x);
    } else if x == c {
        assert(s[2] == x);
    } else if x == d {
        assert(s[3] == x);
    } else if x == e {
        assert(s[4] == x);
    } else if x == f {
        assert(s[5] == x);
    }
}

/// Every canonical source but the generic NES ID has thresholds, and only
/// those do; each of its threshold entries names a conjunct whose source list
/// holds it, with a positive pass threshold and a floor below it; and every
/// conjunct whose list holds the source has an entry.
pub proof fn law_thresholds_cover_sources(id: Seq<char>)
    ensures
        source_thresholds(id) is Some <==> (listed_source(id) && id
            != sources::environmental_transfer::NES@),
        source_thresholds(id) matches Some(ts) ==> ts.len() > 0 && forall|j: int|
            0 <= j < ts.len() ==> threshold_entry_ok(id, #[trigger] ts[j]),
        source_thresholds(id) matches Some(ts) ==> forall|k: int|
            0 <= k < 4 && #[trigger] conjunct_sources(k).contains(id) ==> exists|j: int|
                0 <= j < ts.len() && (#[trigger] ts[j]).0 == k,
{
    lemma_unique_sources_are_distinct();
    let u = unique_sources();
    assert(u[0]@ == sources::generality::ARC_AGI_2@);
    assert(u[1]@ == sources::generality::ARC_AGI_3@);
    assert(u[2]@ == sources::generality::HLE@);
    assert(u[3]@ == sources::generality::GPQA_DIAMOND@);
    assert(u[4]@ == sources::economic_substitutability::GDPVAL@);
    assert(u[5]@ == sources::economic_substitutability::GDPVAL_AA@);
    assert(u[6]@ == sources::economic_substitutability::RLI@);
    assert(u[7]@ == sources::economic_substitutability::APEX_AGENTS@);
    assert(u[8]@ == sources::environmental_transfer::OSWORLD@);
    assert(u[9]@ == sources::environmental_transfer::NES@);
    assert(u[10]@ == sources::autonomous_agency::METR_80PCT_TIME_HORIZON@);
    assert(u[11]@ == sources::autonomous_agency::RE_BENCH@);
    assert(u[12]@ == sources::autonomous_agency::SWE_BENCH_VERIFIED@);
    assert(u[13]@ == sources::environmental_transfer::WEBARENA@);
    assert(u[14]@ == sources::environmental_transfer::SWE_BENCH_VERIFIED_PASS_AT_1@);
    assert(u[15]@ == sources::environmental_transfer::ARIES@);
    assert(sources::environmental_transfer::ARC_AGI_3@ == sources::generality::ARC_AGI_3@);
    lemma_contains4(
        sources::generality::ARC_AGI_2@,
        sources::generality::ARC_AGI_3@,
        sources::generality::HLE@,
        sources::generality::GPQA_DIAMOND@,
        id,
    );
    lemma_contains4(
        sources::economic_substitutability::GDPVAL@,
        sources::economic_substitutability::GDPVAL_AA@,
        sources::economic_substitutability::RLI@,
        sources::economic_substitutability::APEX_AGENTS@,
        id,
    );
    lemma_contains6(
        sources::environmental_transfer::ARC_AGI_3@,
        sources::environmental_transfer::OSWORLD@,
        sources::environmental_transfer::NES@,
        sources::environmental_transfer::WEBARENA@,
        sources::environmental_transfer::SWE_BENCH_VERIFIED_PASS_AT_1@,
        sources::environmental_transfer::ARIES@,
        id,
    );
    lemma_contains3(
        sources::autonomous_agency::METR_80PCT_TIME_HORIZON@,
        sources::autonomous_agency::RE_BENCH@,
        sources::autonomous_agency::SWE_BENCH_VERIFIED@,
        id,
    );
    if listed_source(id) {
        let i = choose|i: int| 0 <= i < unique_sources().len() && unique_sources()[i]@ == id;
        assert(0 <= i < 16);
    } else {
        assert(u[0]@ != id && u[1]@ != id && u[2]@ != id && u[3]@ != id && u[4]@ != id && u[5]@
            != id && u[6]@ != id && u[7]@ != id && u[8]@ != id && u[9]@ != id && u[10]@ != id
            && u[11]@ != id && u[12]@ != id && u[13]@ != id && u[14]@ != id && u[15]@ != id);
    }
    if let Some(ts) = source_thresholds(id) {
        assert forall|k: int| 0 <= k < 4 && #[trigger] conjunct_sources(k).contains(id) implies exists|j: int|
            0 <= j < ts.len() && (#[trigger] ts[j]).0 == k by {
            if ts.len() == 2 && ts[1].0 == k {
                assert(ts[1].0 == k);
            } else {
                assert(ts[0].0 == k);
            }
        }
    }
}

/// Evidence that matches everything but the fetch time: source, measurement,
/// value, reliability, URL, source version and raw value text.
pub open spec fn same_but_fetch_time(a: Evidence, b: Evidence) -> bool {
    &&& a.source@ == b.source@
    &&& a.measurement@ == b.measurement@
    &&& (a.value is Fraction <==> b.value is Fraction)
    &&& a.value.millionths() == b.value.millionths()
    &&& a.reliability_percentile == b.reliability_percentile
    &&& a.provenance.source_url@ == b.provenance.source_url@
    &&& opt_text(a.provenance.source_version) == opt_text(b.provenance.source_version)
    &&& a.provenance.raw_value@ == b.provenance.raw_value@
}

/// The evidence an adapter makes of a record does not depend on the model it
/// is made for: what the conversion promises (`record_evidence`, which
/// `fixture_evidence` and each adapter's `to_evidence` state with no mention
/// of the model) fixes every field of every entry but the fetch time.
pub proof fn law_evidence_independent_of_model(
    record: FixtureRecord,
    v1: Seq<Evidence>,
    v2: Seq<Evidence>,
)
    requires
        record_evidence(record, v1),
        record_evidence(record, v2),
    ensures
        v1.len() == v2.len(),
        forall|i: int| 0 <= i < v1.len() ==> same_but_fetch_time(#[trigger] v1[i], v2[i]),
{
}

/// The threshold a source's first entry gives (the pass threshold of the
/// first conjunct it counts towards).
pub open spec fn first_threshold(id: Seq<char>) -> u64 {
    source_thresholds(id)->0[0].1
}

proof fn lemma_margin_pairs_contains(ev: Seq<Evidence>, i: int, k: int)
    requires
        0 <= i < ev.len(),
        source_thresholds(ev[i].source@) is Some,
        0 <= k < source_thresholds(ev[i].source@)->0.len(),
    ensures
        margin_pairs(ev).contains(
            (ev[i].value.millionths() as u64, source_thresholds(ev[i].source@)->0[k].1),
        ),
    decreases ev.len(),
{
    let pair = (ev[i].value.millionths() as u64, source_thresholds(ev[i].source@)->0[k].1);
    if i == ev.len() - 1 {
        let before = margin_pairs(ev.drop_last());
        assert(entry_margins(ev.last())[k] == pair);
        assert(margin_pairs(ev)[before.len() + k] == pair);
    } else {
        assert(ev.drop_last()[i] == ev[i]);
        lemma_margin_pairs_contains(ev.drop_last(), i, k);
        let j = choose|j: int|
            0 <= j < margin_pairs(ev.drop_last()).len() && margin_pairs(ev.drop_last())[j] == pair;
        assert(margin_pairs(ev)[j] == pair);
    }
}

/// Margin variance is a property of the whole body of evidence, not of its
/// order: when all four conjuncts pass, any two entries of sources with
/// thresholds, in whichever order they stand, whose margins (value over pass
/// threshold) differ by more than a factor of two fail rule 2.
pub proof fn law_variance_between_any_two_entries(
    ev: Seq<Evidence>,
    st: Seq<ConjunctStatus>,
    i: int,
    j: int,
)
    requires
        all_pass(st),
        0 <= i < ev.len(),
        0 <= j < ev.len(),
        source_thresholds(ev[i].source@) is Some,
        source_thresholds(ev[j].source@) is Some,
        2 * (ev[i].value.millionths() as u64) * first_threshold(ev[j].source@) < (
        ev[j].value.millionths() as u64) * first_threshold(ev[i].source@),
    ensures
        variance_rule_fails(ev, st),
{
    crate::consistency::lemma_thresholds_bounded(ev[i].source@);
    crate::consistency::lemma_thresholds_bounded(ev[j].source@);
    lemma_margin_pairs_contains(ev, i, 0);
    lemma_margin_pairs_contains(ev, j, 0);
    let m = margin_pairs(ev);
    let pi = (ev[i].value.millionths() as u64, first_threshold(ev[i].source@));
    let pj = (ev[j].value.millionths() as u64, first_threshold(ev[j].source@));
    let a = choose|a: int| 0 <= a < m.len() && m[a] == pi;
    let b = choose|b: int| 0 <= b < m.len() && m[b] == pj;
    assert(below_half(m[a], m[b]));
}

proof fn lemma_margin_pairs_concat(s: Seq<Evidence>, t: Seq<Evidence>)
    ensures
        margin_pairs(s + t) == margin_pairs(s) + margin_pairs(t),
    decreases t.len(),
{
    if t.len() == 0 {
        assert(s + t =~= s);
        assert(margin_pairs(s) + margin_pairs(t) =~= margin_pairs(s));
    } else {
        lemma_margin_pairs_concat(s, t.drop_last());
        assert((s + t).drop_last() =~= s + t.drop_last());
        assert((s + t).last() == t.last());
        assert(margin_pairs(s + t) =~= margin_pairs(s) + margin_pairs(t));
    }
}

proof fn lemma_margin_pairs_two(x: Evidence, y: Evidence)
    ensures
        margin_pairs(seq![x, y]) == entry_margins(x) + entry_margins(y),
{
    let s = seq![x, y];
    assert(s.drop_last() =~= seq![x]);
    assert(seq![x].drop_last() =~= Seq::<Evidence>::empty());
    assert(seq![x].last() == x);
    assert(margin_pairs(Seq::<Evidence>::empty()) == Seq::<(u64, u64)>::empty());
    assert(margin_pairs(seq![x]) == margin_pairs(Seq::<Evidence>::empty()) + entry_margins(x));
    assert(Seq::<(u64, u64)>::empty() + entry_margins(x) =~= entry_margins(x));
    assert(margin_pairs(seq![x]) =~= entry_margins(x));
    assert(s.last() == y);
    assert(margin_pairs(s) =~= entry_margins(x) + entry_margins(y));
}

proof fn lemma_swap_keeps_elements<T>(a: Seq<T>, x: Seq<T>, y: Seq<T>, b: Seq<T>)
    ensures
        forall|i: int|
            0 <= i < (a + x + y + b).len() ==> (a + y + x + b).contains(#[trigger] (a + x + y + b)[i]),
{
    let m1 = a + x + y + b;
    let m2 = a + y + x + b;
    assert forall|i: int| 0 <= i < m1.len() implies m2.contains(#[trigger] m1[i]) by {
        if i < a.len() {
            assert(m2[i] == m1[i]);
        } else if i < a.len() + x.len() {
            assert(m2[i + y.len()] == m1[i]);
        } else if i < a.len() + x.len() + y.len() {
            assert(m2[i - x.len()] == m1[i]);
        } else {
            assert(m2[i] == m1[i]);
        }
    }
}

proof fn lemma_violation_moves(m1: Seq<(u64, u64)>, m2: Seq<(u64, u64)>)
    requires
        forall|i: int| 0 <= i < m1.len() ==> m2.contains(#[trigger] m1[i]),
        variance_violated(m1),
    ensures
        variance_violated(m2),
{
    let (p, q) = choose|p: int, q: int|
        0 <= p < m1.len() && 0 <= q < m1.len() && #[trigger] below_half(m1[p], m1[q]);
    assert(m2.contains(m1[p]));
    assert(m2.contains(m1[q]));
    let p2 = choose|k: int| 0 <= k < m2.len() && m2[k] == m1[p];
    let q2 = choose|k: int| 0 <= k < m2.len() && m2[k] == m1[q];
    assert(below_half(m2[p2], m2[q2]));
}

/// Rule 2 does not depend on the order of the evidence: exchanging two
/// neighbouring entries never changes whether it fails.
pub proof fn law_variance_order_independent(
    before: Seq<Evidence>,
    x: Evidence,
    y: Evidence,
    after: Seq<Evidence>,
    st: Seq<ConjunctStatus>,
)
    ensures
        variance_rule_fails(before + seq![x, y] + after, st) == variance_rule_fails(
            before + seq![y, x] + after,
            st,
        ),
{
    let a = margin_pairs(before);
    let mx = entry_margins(x);
    let my = entry_margins(y);
    let b = margin_pairs(after);
    lemma_margin_pairs_concat(before + seq![x, y], after);
    lemma_margin_pairs_concat(before, seq![x, y]);
    lemma_margin_pairs_two(x, y);
    lemma_margin_pairs_concat(before + seq![y, x], after);
    lemma_margin_pairs_concat(before, seq![y, x]);
    lemma_margin_pairs_two(y, x);
    let m1 = margin_pairs(before + seq![x, y] + after);
    let m2 = margin_pairs(before + seq![y, x] + after);
    assert(m1 =~= a + mx + my + b);
    assert(m2 =~= a + my + mx + b);
    lemma_swap_keeps_elements(a, mx, my, b);
    lemma_swap_keeps_elements(a, my, mx, b);
    if variance_violated(m1) {
        lemma_violation_moves(m1, m2);
    }
    if variance_violated(m2) {
        lemma_violation_moves(m2, m1);
    }
}

/// How many of four readings are present.
pub open spec fn readings_present(
    a: Option<BoundedFraction>,
    b: Option<BoundedFraction>,
    c: Option<BoundedFraction>,
    d: Option<BoundedFraction>,
) -> int {
    (if a is Some { 1int } else { 0int }) + (if b is Some { 1int } else { 0int }) + (if c is Some {
        1int
    } else {
        0int
    }) + (if d is Some { 1int } else { 0int })
}

/// Generality needs at least three of its four sources: with fewer readings,
/// the status is insufficient_data, unless ARC-AGI-3 is reported below its
/// floor, which fails the conjunct first.
pub proof fn law_generality_needs_three_sources(ev: Seq<Evidence>)
    ensures
        ({
            let a2 = latest_fraction(ev, sources::generality::ARC_AGI_2@);
            let a3 = latest_fraction(ev, sources::generality::ARC_AGI_3@);
            let hle = latest_fraction(ev, sources::generality::HLE@);
            let gpqa = latest_fraction(ev, sources::generality::GPQA_DIAMOND@);
            readings_present(a2, a3, hle, gpqa) < 3 ==> if a3 matches Some(r)
                && r@ < threshold::generality::ARC_AGI_3_FLOOR {
                generality_status(ev) == ConjunctStatus::Fail
            } else {
                generality_status(ev) == ConjunctStatus::InsufficientData
            }
        }),
{
}

/// Generality with three or four readings, ARC-AGI-3 above its floor: pass
/// when every reading meets its threshold, fail when none does, partial
/// otherwise.
pub proof fn law_generality_with_enough_sources(ev: Seq<Evidence>)
    ensures
        ({
            let a2 = latest_fraction(ev, sources::generality::ARC_AGI_2@);
            let a3 = latest_fraction(ev, sources::generality::ARC_AGI_3@);
            let hle = latest_fraction(ev, sources::generality::HLE@);
            let gpqa = latest_fraction(ev, sources::generality::GPQA_DIAMOND@);
            let all_meet = (a2 is None || meets(a2, threshold::generality::ARC_AGI_2_PASS))
                && meets(a3, threshold::generality::ARC_AGI_3_PASS) && (hle is None || meets(
                hle,
                threshold::generality::HLE_PASS,
            )) && (gpqa is None || meets(gpqa, threshold::generality::GPQA_DIAMOND_PASS));
            let some_meet = meets(a2, threshold::generality::ARC_AGI_2_PASS) || meets(
                a3,
                threshold::generality::ARC_AGI_3_PASS,
            ) || meets(hle, threshold::generality::HLE_PASS) || meets(
                gpqa,
                threshold::generality::GPQA_DIAMOND_PASS,
            );
            (readings_present(a2, a3, hle, gpqa) >= 3 && a3 is Some && !(a3 matches Some(r) && r@
                < threshold::generality::ARC_AGI_3_FLOOR)) ==> generality_status(ev) == if all_meet {
                ConjunctStatus::Pass
            } else if some_meet {
                ConjunctStatus::Partial
            } else {
                ConjunctStatus::Fail
            }
        }),
{
}

/// Economic substitutability with both GDPval and RLI reported and RLI at or
/// above its floor: pass when both meet their thresholds, partial when exactly
/// one does, fail when neither does.
pub proof fn law_economic_partial_exactly_one(ev: Seq<Evidence>)
    ensures
        ({
            let g = latest_fraction(ev, sources::economic_substitutability::GDPVAL@);
            let r = latest_fraction(ev, sources::economic_substitutability::RLI@);
            let g_pass = meets(g, threshold::economic_substitutability::GDPVAL_PASS);
            let r_pass = meets(r, threshold::economic_substitutability::RLI_PASS);
            (g is Some && r is Some && !below(r, threshold::economic_substitutability::RLI_FLOOR))
                ==> (economic_status(ev) == ConjunctStatus::Pass <==> (g_pass && r_pass)) && (
            economic_status(ev) == ConjunctStatus::Partial <==> (g_pass != r_pass)) && (
            economic_status(ev) == ConjunctStatus::Fail <==> (!g_pass && !r_pass))
        }),
{
}

/// Autonomous agency: with the METR horizon at or above 168 hours and a
/// supporting source reported, the status is pass or partial, never fail; it
/// fails only with METR below its floor, or with neither METR nor any
/// supporting source meeting its threshold.
pub proof fn law_agency_fails_only_on_floor_or_nothing_met(ev: Seq<Evidence>)
    ensures
        ({
            let m = latest_hours(ev, sources::autonomous_agency::METR_80PCT_TIME_HORIZON@);
            let re = latest_fraction(ev, sources::autonomous_agency::RE_BENCH@);
            let swe = latest_fraction(ev, sources::autonomous_agency::SWE_BENCH_VERIFIED@);
            let metr_pass = m matches Some(h) && h@ >= threshold::autonomous_agency::METR_80PCT_PASS_HOURS;
            let metr_floor = m matches Some(h) && h@ < threshold::autonomous_agency::METR_80PCT_FLOOR_HOURS;
            let support_pass = meets(re, threshold::autonomous_agency::REBENCH_PASS) || meets(
                swe,
                threshold::autonomous_agency::SWEBENCH_VERIFIED_PASS_AT_5,
            );
            &&& (metr_pass && (re is Some || swe is Some)) ==> (agency_status(ev)
                == ConjunctStatus::Pass || agency_status(ev) == ConjunctStatus::Partial)
            &&& (metr_pass && support_pass) ==> agency_status(ev) == ConjunctStatus::Pass
            &&& agency_status(ev) == ConjunctStatus::Fail ==> (metr_floor || (!metr_pass
                && !support_pass))
            &&& (m is Some && !metr_floor && (re is Some || swe is Some) && support_pass
                && !metr_pass) ==> agency_status(ev) == ConjunctStatus::Partial
        }),
{
}

/// Environmental transfer: with ARC-AGI-3 and OSWorld at or above their pass
/// thresholds, one NES source at or above its own threshold makes the
/// conjunct pass, whatever the other NES readings; and a present NES source
/// at or above its floor rules out a failure from NES, so with ARC-AGI-3 and
/// OSWorld above their floors the conjunct does not fail.
pub proof fn law_environmental_one_nes_source_suffices(ev: Seq<Evidence>)
    ensures
        ({
            let a3 = latest_fraction(ev, sources::environmental_transfer::ARC_AGI_3@);
            let os = latest_fraction(ev, sources::environmental_transfer::OSWORLD@);
            let w = latest_fraction(ev, sources::environmental_transfer::WEBARENA@);
            let sw = latest_fraction(ev, sources::environmental_transfer::SWE_BENCH_VERIFIED_PASS_AT_1@);
            let ar = latest_fraction(ev, sources::environmental_transfer::ARIES@);
            let one_nes_passes = meets(w, threshold::environmental_transfer::WEBARENA_PASS) || meets(
                sw,
                threshold::environmental_transfer::SWE_BENCH_VERIFIED_PASS_AT_1_PASS,
            ) || meets(ar, threshold::environmental_transfer::ARIES_PASS);
            let one_nes_above_floor = meets(w, threshold::environmental_transfer::WEBARENA_FLOOR)
                || meets(sw, threshold::environmental_transfer::SWE_BENCH_VERIFIED_PASS_AT_1_FLOOR)
                || meets(ar, threshold::environmental_transfer::ARIES_FLOOR);
            &&& (meets(a3, threshold::environmental_transfer::ARC_AGI_3_PASS) && meets(
                os,
                threshold::environmental_transfer::OSWORLD_PASS,
            ) && one_nes_passes) ==> environmental_status(ev) == ConjunctStatus::Pass
            &&& (meets(a3, threshold::environmental_transfer::ARC_AGI_3_FLOOR) && meets(
                os,
                threshold::environmental_transfer::OSWORLD_FLOOR,
            ) && one_nes_above_floor) ==> environmental_status(ev) != ConjunctStatus::Fail
        }),
{
}

/// Autonomous agency with the METR horizon reported at or above its floor:
/// insufficient_data without a supporting source; otherwise pass when METR
/// and a supporting source both meet their thresholds, partial when exactly
/// one side does, fail when neither does.
pub proof fn law_agency_table(ev: Seq<Evidence>)
    ensures
        ({
            let m = latest_hours(ev, sources::autonomous_agency::METR_80PCT_TIME_HORIZON@);
            let re = latest_fraction(ev, sources::autonomous_agency::RE_BENCH@);
            let swe = latest_fraction(ev, sources::autonomous_agency::SWE_BENCH_VERIFIED@);
            let metr_pass = m matches Some(h) && h@ >= threshold::autonomous_agency::METR_80PCT_PASS_HOURS;
            let support_pass = meets(re, threshold::autonomous_agency::REBENCH_PASS) || meets(
                swe,
                threshold::autonomous_agency::SWEBENCH_VERIFIED_PASS_AT_5,
            );
            (m matches Some(h) && h@ >= threshold::autonomous_agency::METR_80PCT_FLOOR_HOURS) ==> (
            agency_status(ev) == if re is None && swe is None {
                ConjunctStatus::InsufficientData
            } else if metr_pass && support_pass {
                ConjunctStatus::Pass
            } else if metr_pass != support_pass {
                ConjunctStatus::Partial
            } else {
                ConjunctStatus::Fail
            })
        }),
{
}

/// Environmental transfer when no required source is below its floor and
/// not every reported NES source is below its own floor: insufficient_data
/// without ARC-AGI-3, OSWorld or any NES reading; otherwise pass when
/// ARC-AGI-3, OSWorld and some NES source meet their thresholds, partial when
/// not.
pub proof fn law_environmental_table(ev: Seq<Evidence>)
    ensures
        ({
            let a3 = latest_fraction(ev, sources::environmental_transfer::ARC_AGI_3@);
            let os = latest_fraction(ev, sources::environmental_transfer::OSWORLD@);
            let w = latest_fraction(ev, sources::environmental_transfer::WEBARENA@);
            let sw = latest_fraction(ev, sources::environmental_transfer::SWE_BENCH_VERIFIED_PASS_AT_1@);
            let ar = latest_fraction(ev, sources::environmental_transfer::ARIES@);
            let nes_reported = w is Some || sw is Some || ar is Some;
            let some_nes_above_floor = meets(w, threshold::environmental_transfer::WEBARENA_FLOOR)
                || meets(sw, threshold::environmental_transfer::SWE_BENCH_VERIFIED_PASS_AT_1_FLOOR)
                || meets(ar, threshold::environmental_transfer::ARIES_FLOOR);
            let one_nes_passes = meets(w, threshold::environmental_transfer::WEBARENA_PASS) || meets(
                sw,
                threshold::environmental_transfer::SWE_BENCH_VERIFIED_PASS_AT_1_PASS,
            ) || meets(ar, threshold::environmental_transfer::ARIES_PASS);
            let no_floor_failure = !(a3 matches Some(r) && r@
                < threshold::environmental_transfer::ARC_AGI_3_FLOOR) && !(os matches Some(r) && r@
                < threshold::environmental_transfer::OSWORLD_FLOOR) && (!nes_reported
                || some_nes_above_floor);
            no_floor_failure ==> environmental_status(ev) == if a3 is None || os is None
                || !nes_reported {
                ConjunctStatus::InsufficientData
            } else if meets(a3, threshold::environmental_transfer::ARC_AGI_3_PASS) && meets(
                os,
                threshold::environmental_transfer::OSWORLD_PASS,
            ) && one_nes_passes {
                ConjunctStatus::Pass
            } else {
                ConjunctStatus::Partial
            }
        }),
{
}

/// Rule 1 fails exactly on a masking pattern: one conjunct lacks evidence
/// while the three others pass.
pub proof fn law_rule1_exactly_masking(ev: Seq<Evidence>, st: Seq<ConjunctStatus>)
    requires
        st.len() == 4,
    ensures
        failed_rules_of(ev, st).contains(crate::consistency::RULE_1@) <==> exists|i: int|
            0 <= i < 4 && #[trigger] st[i] == ConjunctStatus::InsufficientData && forall|j: int|
                0 <= j < 4 && j != i ==> #[trigger] st[j] == ConjunctStatus::Pass,
{
    lemma_rule_names_distinct();
    let f = failed_rules_of(ev, st);
    if f.contains(crate::consistency::RULE_1@) {
        assert(masking_pattern(st));
        let i: int = if st[0] == ConjunctStatus::InsufficientData {
            0
        } else if st[1] == ConjunctStatus::InsufficientData {
            1
        } else if st[2] == ConjunctStatus::InsufficientData {
            2
        } else {
            3
        };
        assert(st[i] == ConjunctStatus::InsufficientData);
        assert forall|j: int| 0 <= j < 4 && j != i implies #[trigger] st[j] == ConjunctStatus::Pass by {
        }
    }
    if exists|i: int|
        0 <= i < 4 && #[trigger] st[i] == ConjunctStatus::InsufficientData && forall|j: int|
            0 <= j < 4 && j != i ==> #[trigger] st[j] == ConjunctStatus::Pass {
        let i = choose|i: int|
            0 <= i < 4 && #[trigger] st[i] == ConjunctStatus::InsufficientData && forall|j: int|
                0 <= j < 4 && j != i ==> #[trigger] st[j] == ConjunctStatus::Pass;
        assert(st[0] == ConjunctStatus::Pass || 0 == i);
        assert(st[1] == ConjunctStatus::Pass || 1 == i);
        assert(st[2] == ConjunctStatus::Pass || 2 == i);
        assert(st[3] == ConjunctStatus::Pass || 3 == i);
        assert(masking_pattern(st));
        assert(f[0] == crate::consistency::RULE_1@);
    }
}

proof fn lemma_rule_names_distinct()
    ensures
        crate::consistency::RULE_1@ != crate::consistency::RULE_2@,
        crate::consistency::RULE_1@ != crate::consistency::RULE_3@,
        crate::consistency::RULE_2@ != crate::consistency::RULE_3@,
{
    reveal_strlit("rule_1_insufficient_data_masking");
    reveal_strlit("rule_2_variance_bound");
    reveal_strlit("rule_3_provenance_metadata");
    assert(crate::consistency::RULE_1@[5] == '1');
    assert(crate::consistency::RULE_2@[5] == '2');
    assert(crate::consistency::RULE_3@[5] == '3');
}

/// Rule 3 fails exactly when some evidence entry lacks a source URL or a
/// source-side version.
pub proof fn law_rule3_exactly_missing_provenance(ev: Seq<Evidence>, st: Seq<ConjunctStatus>)
    ensures
        failed_rules_of(ev, st).contains(crate::consistency::RULE_3@) <==> exists|i: int|
            0 <= i < ev.len() && ((#[trigger] ev[i]).provenance.source_url@.len() == 0
                || ev[i].provenance.source_version is None),
{
    lemma_rule_names_distinct();
    lemma_missing_provenance_empty(ev);
    let f = failed_rules_of(ev, st);
    if crate::consistency::missing_provenance(ev).len() > 0 {
        assert(f[f.len() - 1] == crate::consistency::RULE_3@);
    }
}

proof fn lemma_missing_provenance_empty(ev: Seq<Evidence>)
    ensures
        crate::consistency::missing_provenance(ev).len() == 0 <==> forall|i: int|
            0 <= i < ev.len() ==> crate::consistency::provenance_complete(#[trigger] ev[i]),
    decreases ev.len(),
{
    if ev.len() > 0 {
        lemma_missing_provenance_empty(ev.drop_last());
        assert forall|i: int| 0 <= i < ev.len() - 1 implies #[trigger] ev.drop_last()[i] == ev[i] by {}
        if forall|i: int| 0 <= i < ev.len() ==> crate::consistency::provenance_complete(#[trigger] ev[i]) {
            assert(crate::consistency::provenance_complete(ev[ev.len() - 1]));
            assert forall|i: int| 0 <= i < ev.drop_last().len() implies crate::consistency::provenance_complete(#[trigger] ev.drop_last()[i]) by {
                assert(crate::consistency::provenance_complete(ev[i]));
            }
        } else {
            let i = choose|i: int| 0 <= i < ev.len() && !crate::consistency::provenance_complete(#[trigger] ev[i]);
            if i < ev.len() - 1 {
                assert(!crate::consistency::provenance_complete(ev.drop_last()[i]));
            }
        }
    }
}

} // verus!
