//! Cross-conjunct consistency check.
//!
//! Guards against suspicious measurement patterns, such as one conjunct in
//! insufficient_data while all others pass.

use crate::conjunct::ConjunctStatus;
use crate::evidence::{Evidence, SourceValue};
use crate::sources;
use crate::text::{concat2, concat3, join, join_strings, str_texts, text_eq, texts, to_strings};
use crate::threshold;
use vstd::prelude::*;

verus! {

/// Name of consistency rule 1 in results.
pub const RULE_1: &'static str = "rule_1_insufficient_data_masking";
/// Name of consistency rule 2 in results.
pub const RULE_2: &'static str = "rule_2_variance_bound";
/// Name of consistency rule 3 in results.
pub const RULE_3: &'static str = "rule_3_provenance_metadata";
/// Detail of a check that passes without any evidence to check.
pub const SKIPPED_DETAIL: &'static str = "No evidence provided; consistency check skipped";

/// Result of the consistency check.
#[derive(Debug, Clone)]
pub struct ConsistencyResult {
    pub passed: bool,
    pub failed_rules: Vec<String>,
    pub detail: Option<String>,
}

impl ConsistencyResult {
    /// Create a passing consistency check.
    pub fn pass() -> (r: Self)
        ensures
            r.passed,
            r.failed_rules@.len() == 0,
            r.detail is None,
    {
        ConsistencyResult { passed: true, failed_rules: Vec::new(), detail: None }
    }

    /// Create a failing consistency check with the names of the failed rules.
    pub fn fail(rules: Vec<&str>, detail: String) -> (r: Self)
        ensures
            !r.passed,
            texts(r.failed_rules@) == str_texts(rules@),
            r.detail == Some(detail),
    {
        ConsistencyResult { passed: false, failed_rules: to_strings(&rules), detail: Some(detail) }
    }
}

/// 1 when `b` holds, else 0.
pub open spec fn indicator(b: bool) -> int {
    if b {
        1
    } else {
        0
    }
}

/// Number of the four statuses equal to `x`.
pub open spec fn count_status(st: Seq<ConjunctStatus>, x: ConjunctStatus) -> int {
    indicator(st[0] == x) + indicator(st[1] == x) + indicator(st[2] == x) + indicator(st[3] == x)
}

/// Rule 1 is violated: three conjuncts pass and one is insufficient_data.
pub open spec fn masking_pattern(st: Seq<ConjunctStatus>) -> bool {
    count_status(st, ConjunctStatus::Pass) == 3 && count_status(
        st,
        ConjunctStatus::InsufficientData,
    ) == 1
}

/// All four conjuncts pass.
pub open spec fn all_pass(st: Seq<ConjunctStatus>) -> bool {
    forall|i: int| 0 <= i < 4 ==> st[i] == ConjunctStatus::Pass
}

fn count_equal(st: &[ConjunctStatus; 4], x: ConjunctStatus) -> (n: u8)
    ensures
        n == count_status(st@, x),
{
    let mut n: u8 = 0;
    if st[0] == x {
        n = n + 1;
    }
    if st[1] == x {
        n = n + 1;
    }
    if st[2] == x {
        n = n + 1;
    }
    if st[3] == x {
        n = n + 1;
    }
    n
}

/// Check rule 1: no insufficient_data masking.
/// If three conjuncts pass and one is insufficient_data, it is a masking pattern.
pub fn check_no_insufficient_data_masking(conjunct_statuses: &[ConjunctStatus; 4]) -> (r: Result<
    (),
    String,
>)
    ensures
        r is Err <==> masking_pattern(conjunct_statuses@),
        r matches Err(m) ==> m@
            == "One conjunct is insufficient_data while all others pass (masking pattern)"@,
{
    let pass_count = count_equal(conjunct_statuses, ConjunctStatus::Pass);
    let insufficient_count = count_equal(conjunct_statuses, ConjunctStatus::InsufficientData);
    if pass_count == 3 && insufficient_count == 1 {
        return Err(
            String::from_str(
                "One conjunct is insufficient_data while all others pass (masking pattern)",
            ),
        );
    }
    Ok(())
}

/// The conjuncts a source counts towards, each with its pass threshold and
/// floor: `(conjunct index, pass threshold, floor)`. The generic `nes` ID has
/// no threshold; the named NES sources have their own.
pub open spec fn source_thresholds(id: Seq<char>) -> Option<Seq<(usize, u64, Option<u64>)>> {
    if id == sources::generality::ARC_AGI_2@ {
        Some(seq![(0usize, threshold::generality::ARC_AGI_2_PASS, None)])
    } else if id == sources::generality::ARC_AGI_3@ {
        Some(
            seq![
                (0usize, threshold::generality::ARC_AGI_3_PASS, Some(threshold::generality::ARC_AGI_3_FLOOR)),
                (2usize, threshold::environmental_transfer::ARC_AGI_3_PASS, Some(threshold::environmental_transfer::ARC_AGI_3_FLOOR)),
            ],
        )
    } else if id == sources::generality::HLE@ {
        Some(seq![(0usize, threshold::generality::HLE_PASS, None)])
    } else if id == sources::generality::GPQA_DIAMOND@ {
        Some(seq![(0usize, threshold::generality::GPQA_DIAMOND_PASS, None)])
    } else if id == sources::economic_substitutability::GDPVAL@ || id
        == sources::economic_substitutability::GDPVAL_AA@ {
        Some(seq![(1usize, threshold::economic_substitutability::GDPVAL_PASS, None)])
    } else if id == sources::economic_substitutability::RLI@ {
        Some(seq![(1usize, threshold::economic_substitutability::RLI_PASS, Some(threshold::economic_substitutability::RLI_FLOOR))])
    } else if id == sources::economic_substitutability::APEX_AGENTS@ {
        Some(seq![(1usize, threshold::economic_substitutability::APEX_AGENTS_PASS, None)])
    } else if id == sources::environmental_transfer::OSWORLD@ {
        Some(seq![(2usize, threshold::environmental_transfer::OSWORLD_PASS, Some(threshold::environmental_transfer::OSWORLD_FLOOR))])
    } else if id == sources::environmental_transfer::WEBARENA@ {
        Some(seq![(2usize, threshold::environmental_transfer::WEBARENA_PASS, Some(threshold::environmental_transfer::WEBARENA_FLOOR))])
    } else if id == sources::environmental_transfer::SWE_BENCH_VERIFIED_PASS_AT_1@ {
        Some(seq![(2usize, threshold::environmental_transfer::SWE_BENCH_VERIFIED_PASS_AT_1_PASS, Some(threshold::environmental_transfer::SWE_BENCH_VERIFIED_PASS_AT_1_FLOOR))])
    } else if id == sources::environmental_transfer::ARIES@ {
        Some(seq![(2usize, threshold::environmental_transfer::ARIES_PASS, Some(threshold::environmental_transfer::ARIES_FLOOR))])
    } else if id == sources::autonomous_agency::METR_80PCT_TIME_HORIZON@ {
        Some(seq![(3usize, threshold::autonomous_agency::METR_80PCT_PASS_HOURS, Some(threshold::autonomous_agency::METR_80PCT_FLOOR_HOURS))])
    } else if id == sources::autonomous_agency::RE_BENCH@ {
        Some(seq![(3usize, threshold::autonomous_agency::REBENCH_PASS, None)])
    } else if id == sources::autonomous_agency::SWE_BENCH_VERIFIED@ {
        Some(seq![(3usize, threshold::autonomous_agency::SWEBENCH_VERIFIED_PASS_AT_5, None)])
    } else {
        None
    }
}

/// Map a source ID to the conjuncts it counts towards, with their thresholds:
/// `(conjunct index, pass threshold, floor)` tuples.
pub fn get_source_threshold(source_id: &str) -> (r: Option<Vec<(usize, u64, Option<u64>)>>)
    ensures
        r is Some <==> source_thresholds(source_id@) is Some,
        r matches Some(v) ==> v@ == source_thresholds(source_id@)->0,
{
    if text_eq(source_id, sources::generality::ARC_AGI_2) {
        Some(vec![(0, threshold::generality::ARC_AGI_2_PASS, None)])
    } else if text_eq(source_id, sources::generality::ARC_AGI_3) {
        Some(
            vec![
                (0, threshold::generality::ARC_AGI_3_PASS, Some(threshold::generality::ARC_AGI_3_FLOOR)),
                (2, threshold::environmental_transfer::ARC_AGI_3_PASS, Some(threshold::environmental_transfer::ARC_AGI_3_FLOOR)),
            ],
        )
    } else if text_eq(source_id, sources::generality::HLE) {
        Some(vec![(0, threshold::generality::HLE_PASS, None)])
    } else if text_eq(source_id, sources::generality::GPQA_DIAMOND) {
        Some(vec![(0, threshold::generality::GPQA_DIAMOND_PASS, None)])
    } else if text_eq(source_id, sources::economic_substitutability::GDPVAL) || text_eq(
        source_id,
        sources::economic_substitutability::GDPVAL_AA,
    ) {
        Some(vec![(1, threshold::economic_substitutability::GDPVAL_PASS, None)])
    } else if text_eq(source_id, sources::economic_substitutability::RLI) {
        Some(vec![(1, threshold::economic_substitutability::RLI_PASS, Some(threshold::economic_substitutability::RLI_FLOOR))])
    } else if text_eq(source_id, sources::economic_substitutability::APEX_AGENTS) {
        Some(vec![(1, threshold::economic_substitutability::APEX_AGENTS_PASS, None)])
    } else if text_eq(source_id, sources::environmental_transfer::OSWORLD) {
        Some(vec![(2, threshold::environmental_transfer::OSWORLD_PASS, Some(threshold::environmental_transfer::OSWORLD_FLOOR))])
    } else if text_eq(source_id, sources::environmental_transfer::WEBARENA) {
        Some(vec![(2, threshold::environmental_transfer::WEBARENA_PASS, Some(threshold::environmental_transfer::WEBARENA_FLOOR))])
    } else if text_eq(source_id, sources::environmental_transfer::SWE_BENCH_VERIFIED_PASS_AT_1) {
        Some(vec![(2, threshold::environmental_transfer::SWE_BENCH_VERIFIED_PASS_AT_1_PASS, Some(threshold::environmental_transfer::SWE_BENCH_VERIFIED_PASS_AT_1_FLOOR))])
    } else if text_eq(source_id, sources::environmental_transfer::ARIES) {
        Some(vec![(2, threshold::environmental_transfer::ARIES_PASS, Some(threshold::environmental_transfer::ARIES_FLOOR))])
    } else if text_eq(source_id, sources::autonomous_agency::METR_80PCT_TIME_HORIZON) {
        Some(vec![(3, threshold::autonomous_agency::METR_80PCT_PASS_HOURS, Some(threshold::autonomous_agency::METR_80PCT_FLOOR_HOURS))])
    } else if text_eq(source_id, sources::autonomous_agency::RE_BENCH) {
        Some(vec![(3, threshold::autonomous_agency::REBENCH_PASS, None)])
    } else if text_eq(source_id, sources::autonomous_agency::SWE_BENCH_VERIFIED) {
        Some(vec![(3, threshold::autonomous_agency::SWEBENCH_VERIFIED_PASS_AT_5, None)])
    } else {
        None
    }
}

/// The `(value, pass threshold)` pairs one evidence entry contributes to the
/// margin computation, one per conjunct its source counts towards.
pub open spec fn entry_margins(e: Evidence) -> Seq<(u64, u64)> {
    match source_thresholds(e.source@) {
        Some(ts) => ts.map_values(|t: (usize, u64, Option<u64>)| (e.value.millionths() as u64, t.1)),
        None => Seq::empty(),
    }
}

/// All `(value, pass threshold)` pairs of a body of evidence, in order.
/// The margin of a pair is value / threshold.
pub open spec fn margin_pairs(ev: Seq<Evidence>) -> Seq<(u64, u64)>
    decreases ev.len(),
{
    if ev.len() == 0 {
        Seq::empty()
    } else {
        margin_pairs(ev.drop_last()) + entry_margins(ev.last())
    }
}

/// Margin p is below half of margin q: v_p / t_p < 0.5 * v_q / t_q.
pub open spec fn below_half(p: (u64, u64), q: (u64, u64)) -> bool {
    threshold::consistency::MARGIN_VARIANCE_DENOMINATOR * p.0 * q.1
        < threshold::consistency::MARGIN_VARIANCE_NUMERATOR * q.0 * p.1
}

/// The minimum margin is below half the maximum margin.
pub open spec fn variance_violated(m: Seq<(u64, u64)>) -> bool {
    exists|p: int, q: int| 0 <= p < m.len() && 0 <= q < m.len() && #[trigger] below_half(m[p], m[q])
}

/// Rule 2 is violated: all four conjuncts pass and the margins are too uneven.
pub open spec fn variance_rule_fails(ev: Seq<Evidence>, st: Seq<ConjunctStatus>) -> bool {
    all_pass(st) && variance_violated(margin_pairs(ev))
}

/// Every pass threshold is positive and at most 168 hours (in millionths).
pub proof fn lemma_thresholds_bounded(id: Seq<char>)
    ensures
        source_thresholds(id) matches Some(ts) ==> forall|k: int|
            0 <= k < ts.len() ==> 0 < (#[trigger] ts[k]).1 <= 168_000_000,
        source_thresholds(id) matches Some(ts) ==> forall|k: int|
            0 <= k < ts.len() ==> ((#[trigger] ts[k]).2 matches Some(f) ==> f <= 168_000_000),
        source_thresholds(id) matches Some(ts) ==> ts.len() > 0,
{
}

proof fn lemma_product_fits(v: u64, t: u64)
    requires
        t <= 168_000_000,
    ensures
        2 * (v as int) * (t as int) <= u128::MAX,
        (v as int) * (t as int) <= u128::MAX,
{
    assert(2 * (v as int) * (t as int) <= 2 * (u64::MAX as int) * 168_000_000) by (nonlinear_arith)
        requires
            t <= 168_000_000,
    ;
    assert((v as int) * (t as int) <= (u64::MAX as int) * 168_000_000) by (nonlinear_arith)
        requires
            t <= 168_000_000,
    ;
}

/// Collect the margin pairs of all evidence.
fn collect_margins(evidence: &[Evidence]) -> (m: Vec<(u64, u64)>)
    ensures
        m@ == margin_pairs(evidence@),
        forall|k: int| 0 <= k < m@.len() ==> (#[trigger] m@[k]).1 <= 168_000_000,
{
    let mut margins: Vec<(u64, u64)> = Vec::new();
    let mut i: usize = 0;
    while i < evidence.len()
        invariant
            i <= evidence@.len(),
            margins@ == margin_pairs(evidence@.take(i as int)),
            forall|k: int| 0 <= k < margins@.len() ==> (#[trigger] margins@[k]).1 <= 168_000_000,
        decreases evidence@.len() - i,
    {
        let e = &evidence[i];
        assert(evidence@.take(i + 1).drop_last() =~= evidence@.take(i as int));
        proof {
            lemma_thresholds_bounded(e.source@);
        }
        if let Some(thresholds) = get_source_threshold(e.source.as_str()) {
            let raw_value = e.value.raw_millionths();
            let ghost before = margins@;
            let mut j: usize = 0;
            while j < thresholds.len()
                invariant
                    j <= thresholds@.len(),
                    thresholds@ == source_thresholds(e.source@)->0,
                    source_thresholds(e.source@) is Some,
                    raw_value == e.value.millionths(),
                    margins@ == before + entry_margins(*e).take(j as int),
                    forall|k: int| 0 <= k < margins@.len() ==> (#[trigger] margins@[k]).1 <= 168_000_000,
                    forall|k: int|
                        0 <= k < thresholds@.len() ==> (#[trigger] thresholds@[k]).1 <= 168_000_000,
                decreases thresholds@.len() - j,
            {
                let (_, pass_threshold, _) = thresholds[j];
                margins.push((raw_value, pass_threshold));
                assert(entry_margins(*e).take(j + 1) =~= entry_margins(*e).take(j as int).push(
                    (raw_value, pass_threshold),
                ));
                j = j + 1;
            }
            assert(entry_margins(*e).take(thresholds@.len() as int) =~= entry_margins(*e));
        } else {
            assert(entry_margins(*e) =~= Seq::<(u64, u64)>::empty());
            assert(margins@ =~= margins@ + entry_margins(*e));
        }
        i = i + 1;
    }
    assert(evidence@.take(evidence@.len() as int) =~= evidence@);
    margins
}

/// Check rule 2: variance bound.
/// When all four conjuncts pass, the minimum margin (value / pass threshold
/// over every source used) must be at least 0.5 times the maximum margin.
pub fn check_variance_bound(evidence: &[Evidence], conjunct_statuses: &[ConjunctStatus; 4]) -> (r:
    Result<(), String>)
    ensures
        r is Err <==> variance_rule_fails(evidence@, conjunct_statuses@),
        r matches Err(m) ==> m@ == "Variance bound violated: min_margin < 0.5 * max_margin"@,
{
    let every_pass = conjunct_statuses[0] == ConjunctStatus::Pass && conjunct_statuses[1]
        == ConjunctStatus::Pass && conjunct_statuses[2] == ConjunctStatus::Pass
        && conjunct_statuses[3] == ConjunctStatus::Pass;
    if !every_pass {
        // The variance rule only applies when all conjuncts pass
        assert(!all_pass(conjunct_statuses@)) by {
            if all_pass(conjunct_statuses@) {
                assert(conjunct_statuses@[0] == ConjunctStatus::Pass);
                assert(conjunct_statuses@[1] == ConjunctStatus::Pass);
                assert(conjunct_statuses@[2] == ConjunctStatus::Pass);
                assert(conjunct_statuses@[3] == ConjunctStatus::Pass);
            }
        }
        return Ok(());
    }
    assert forall|i: int| 0 <= i < 4 implies conjunct_statuses@[i] == ConjunctStatus::Pass by {
        if i == 0 {
        } else if i == 1 {
        } else if i == 2 {
        } else {
        }
    }
    let margins = collect_margins(evidence);
    let n = margins.len();
    let mut p: usize = 0;
    while p < n
        invariant
            n == margins@.len(),
            p <= n,
            margins@ == margin_pairs(evidence@),
            all_pass(conjunct_statuses@),
            forall|k: int| 0 <= k < margins@.len() ==> (#[trigger] margins@[k]).1 <= 168_000_000,
            forall|a: int, b: int|
                0 <= a < p && 0 <= b < n ==> !#[trigger] below_half(margins@[a], margins@[b]),
        decreases n - p,
    {
        let mut q: usize = 0;
        while q < n
            invariant
                n == margins@.len(),
                p < n,
                margins@ == margin_pairs(evidence@),
                all_pass(conjunct_statuses@),
                q <= n,
                forall|k: int| 0 <= k < margins@.len() ==> (#[trigger] margins@[k]).1 <= 168_000_000,
                forall|a: int, b: int|
                    0 <= a < p && 0 <= b < n ==> !#[trigger] below_half(margins@[a], margins@[b]),
                forall|b: int| 0 <= b < q ==> !#[trigger] below_half(margins@[p as int], margins@[b]),
            decreases n - q,
        {
            let (vp, tp) = margins[p];
            let (vq, tq) = margins[q];
            proof {
                lemma_product_fits(vp, tq);
                lemma_product_fits(vq, tp);
            }
            let lhs: u128 = 2 * (vp as u128) * (tq as u128);
            let rhs: u128 = (vq as u128) * (tp as u128);
            if lhs < rhs {
                assert(below_half(margins@[p as int], margins@[q as int]));
                return Err(
                    String::from_str("Variance bound violated: min_margin < 0.5 * max_margin"),
                );
            }
            q = q + 1;
        }
        p = p + 1;
    }
    assert(!variance_violated(margins@));
    Ok(())
}

/// The provenance of `e` carries a source URL and a source-side version or date stamp.
pub open spec fn provenance_complete(e: Evidence) -> bool {
    e.provenance.source_url@.len() > 0 && e.provenance.source_version is Some
}

/// What the provenance of `e` lacks, comma-separated.
pub open spec fn provenance_issues(e: Evidence) -> Seq<char> {
    if e.provenance.source_url@.len() == 0 && e.provenance.source_version is None {
        "source_url, source_version"@
    } else if e.provenance.source_url@.len() == 0 {
        "source_url"@
    } else {
        "source_version"@
    }
}

/// One line of the provenance report: the source and what it lacks.
pub open spec fn provenance_note(e: Evidence) -> Seq<char> {
    e.source@ + " (missing: "@ + provenance_issues(e) + ")"@
}

/// The provenance report lines of the evidence entries with incomplete
/// provenance, in order.
pub open spec fn missing_provenance(ev: Seq<Evidence>) -> Seq<Seq<char>>
    decreases ev.len(),
{
    if ev.len() == 0 {
        Seq::empty()
    } else if !provenance_complete(ev.last()) {
        missing_provenance(ev.drop_last()).push(provenance_note(ev.last()))
    } else {
        missing_provenance(ev.drop_last())
    }
}

fn provenance_issue_text(e: &Evidence) -> (s: &'static str)
    requires
        !provenance_complete(*e),
    ensures
        s@ == provenance_issues(*e),
{
    let no_url = e.provenance.source_url.as_str().is_empty();
    let no_version = e.provenance.source_version.is_none();
    if no_url && no_version {
        "source_url, source_version"
    } else if no_url {
        "source_url"
    } else {
        "source_version"
    }
}

/// Check rule 3: provenance metadata completeness.
/// Every source must carry a source URL and a source-side version or date stamp.
pub fn check_provenance_metadata(evidence: &[Evidence]) -> (r: Result<(), String>)
    ensures
        r is Ok <==> missing_provenance(evidence@).len() == 0,
        r is Ok <==> (forall|i: int| 0 <= i < evidence@.len() ==> provenance_complete(#[trigger] evidence@[i])),
        r matches Err(msg) ==> msg@ == "Provenance metadata incomplete for: "@ + join(
            missing_provenance(evidence@),
            "; "@,
        ),
{
    let mut missing_sources: Vec<String> = Vec::new();
    let mut i: usize = 0;
    while i < evidence.len()
        invariant
            i <= evidence@.len(),
            texts(missing_sources@) == missing_provenance(evidence@.take(i as int)),
            missing_sources@.len() == 0 <==> (forall|k: int| 0 <= k < i ==> provenance_complete(#[trigger] evidence@[k])),
        decreases evidence@.len() - i,
    {
        let e = &evidence[i];
        assert(evidence@.take(i + 1).drop_last() =~= evidence@.take(i as int));
        assert(evidence@.take(i + 1).last() == evidence@[i as int]);
        let complete = !e.provenance.source_url.as_str().is_empty()
            && e.provenance.source_version.is_some();
        if !complete {
            let ghost before = missing_sources@;
            let issues = provenance_issue_text(e);
            let mut note = concat3(e.source.as_str(), " (missing: ", issues);
            note.append(")");
            missing_sources.push(note);
            assert(texts(missing_sources@) =~= texts(before).push(provenance_note(*e)));
        }
        i = i + 1;
    }
    assert(evidence@.take(evidence@.len() as int) =~= evidence@);
    if missing_sources.len() > 0 {
        let joined = join_strings(&missing_sources, "; ");
        return Err(concat2("Provenance metadata incomplete for: ", joined.as_str()));
    }
    Ok(())
}

/// The names of the failed rules, in rule order.
pub open spec fn failed_rule_names(rule1: bool, rule2: bool, rule3: bool) -> Seq<Seq<char>> {
    (if rule1 {
        seq![RULE_1@]
    } else {
        Seq::empty()
    }) + (if rule2 {
        seq![RULE_2@]
    } else {
        Seq::empty()
    }) + (if rule3 {
        seq![RULE_3@]
    } else {
        Seq::empty()
    })
}

/// The rules that fail for this evidence and these statuses.
pub open spec fn failed_rules_of(ev: Seq<Evidence>, st: Seq<ConjunctStatus>) -> Seq<Seq<char>> {
    failed_rule_names(
        masking_pattern(st),
        variance_rule_fails(ev, st),
        missing_provenance(ev).len() > 0,
    )
}

/// Evaluate all three consistency check rules.
///
/// Takes the evidence and the per-conjunct statuses (in order: Generality,
/// EconomicSubstitutability, EnvironmentalTransfer, AutonomousAgency). The
/// check passes exactly when no rule fails; otherwise it lists the failed
/// rules and a detail line naming them. A pass with no evidence at all carries
/// a detail saying the check was skipped.
pub fn consistency_check(evidence: &[Evidence], conjunct_statuses: &[ConjunctStatus; 4]) -> (r:
    ConsistencyResult)
    ensures
        r.passed <==> failed_rules_of(evidence@, conjunct_statuses@).len() == 0,
        texts(r.failed_rules@) == failed_rules_of(evidence@, conjunct_statuses@),
        r.passed && evidence@.len() == 0 ==> (r.detail matches Some(d) && d@ == SKIPPED_DETAIL@),
        r.passed && evidence@.len() > 0 ==> r.detail is None,
        !r.passed ==> (r.detail matches Some(d) && d@ == "Consistency check failed on: "@ + join(
            failed_rules_of(evidence@, conjunct_statuses@),
            ", "@,
        )),
{
    let mut failed_rules: Vec<&str> = Vec::new();
    // Rule 1: no insufficient_data masking
    if check_no_insufficient_data_masking(conjunct_statuses).is_err() {
        failed_rules.push(RULE_1);
    }
    // Rule 2: variance bound
    if check_variance_bound(evidence, conjunct_statuses).is_err() {
        failed_rules.push(RULE_2);
    }
    // Rule 3: provenance metadata
    if check_provenance_metadata(evidence).is_err() {
        failed_rules.push(RULE_3);
    }
    assert(str_texts(failed_rules@) =~= failed_rules_of(evidence@, conjunct_statuses@));
    if failed_rules.len() == 0 {
        if evidence.len() == 0 {
            // A vacuous pass: there was nothing to check
            ConsistencyResult {
                passed: true,
                failed_rules: Vec::new(),
                detail: Some(String::from_str(SKIPPED_DETAIL)),
            }
        } else {
            ConsistencyResult::pass()
        }
    } else {
        let names = to_strings(&failed_rules);
        let joined = join_strings(&names, ", ");
        let detail = concat2("Consistency check failed on: ", joined.as_str());
        ConsistencyResult::fail(failed_rules, detail)
    }
}

} // verus!
