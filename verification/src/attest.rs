//! Attestation: evidence in, verdict output out.
//!
//! Routes evidence through the conjunct evaluators, the consistency check and
//! the verdict table, and assembles the verdict output.

use crate::adapters::{is_utc_stamp, utc_now_rfc3339};
use crate::conjunct::{status_name, status_to_string, ConjunctStatus};
use crate::consistency::{
    consistency_check, failed_rules_of, get_source_threshold, lemma_thresholds_bounded,
    source_thresholds, SKIPPED_DETAIL,
};
use crate::decimal::{decimal_text, unsigned_decimal_text};
use crate::evaluators::{
    agency_status, economic_status, environmental_status, evaluate_autonomous_agency,
    evaluate_economic_substitutability, evaluate_environmental_transfer, evaluate_generality,
    generality_status,
};
use crate::evidence::Evidence;
use crate::schema::{
    opt_text, same_report, ConjunctReport, ConjunctsOutput, ConsistencyCheckOutput, EvidenceReport,
    ModelMetadata, ProvenanceReport, VerdictOutput,
};
use crate::sources;
use crate::text::{concat2, join, text_eq, texts};
use crate::verdict::{verdict, verdict_kind, Verdict};
use vstd::prelude::*;

verus! {

/// Specification version the runner implements.
pub const SPEC_VERSION: &'static str = "0.1.0";
/// Runner version.
pub const VERSION: &'static str = "0.1.0";
/// Known gap reported by live attestation.
pub const NES_GAP: &'static str =
    "NES (Novel-Environment Subset) underspecified; accepting evidence but not evaluating";

/// The evidence reports of a source belong to conjunct `k` (in conjunct order).
/// ARC-AGI-3 belongs to both generality and environmental transfer.
pub open spec fn in_group(id: Seq<char>, k: int) -> bool {
    if k == 0 {
        id == sources::generality::ARC_AGI_2@ || id == sources::generality::HLE@ || id
            == sources::generality::GPQA_DIAMOND@ || id == sources::generality::ARC_AGI_3@
    } else if k == 1 {
        id == sources::economic_substitutability::GDPVAL@ || id
            == sources::economic_substitutability::GDPVAL_AA@ || id
            == sources::economic_substitutability::RLI@ || id
            == sources::economic_substitutability::APEX_AGENTS@
    } else if k == 2 {
        id == sources::generality::ARC_AGI_3@ || id == sources::environmental_transfer::OSWORLD@
            || id == sources::environmental_transfer::NES@ || id
            == sources::environmental_transfer::WEBARENA@ || id
            == sources::environmental_transfer::SWE_BENCH_VERIFIED_PASS_AT_1@ || id
            == sources::environmental_transfer::ARIES@
    } else {
        id == sources::autonomous_agency::METR_80PCT_TIME_HORIZON@ || id
            == sources::autonomous_agency::RE_BENCH@ || id
            == sources::autonomous_agency::SWE_BENCH_VERIFIED@
    }
}

/// The reports of `rs` that belong to conjunct `k`, in order.
pub open spec fn group_of(rs: Seq<EvidenceReport>, k: int) -> Seq<EvidenceReport>
    decreases rs.len(),
{
    if rs.len() == 0 {
        Seq::empty()
    } else if in_group(rs.last().source@, k) {
        group_of(rs.drop_last(), k).push(rs.last())
    } else {
        group_of(rs.drop_last(), k)
    }
}

/// `a` holds reports that match those of `b` one for one.
pub open spec fn same_reports(a: Seq<EvidenceReport>, b: Seq<EvidenceReport>) -> bool {
    a.len() == b.len() && forall|i: int| 0 <= i < a.len() ==> same_report(#[trigger] a[i], b[i])
}

fn push_report(group: &mut Vec<EvidenceReport>, r: EvidenceReport, Ghost(target): Ghost<
    Seq<EvidenceReport>,
>, Ghost(incoming): Ghost<EvidenceReport>)
    requires
        same_reports(old(group)@, target),
        same_report(r, incoming),
    ensures
        same_reports(final(group)@, target.push(incoming)),
{
    group.push(r);
}

/// Group evidence reports by conjunct: generality, economic substitutability,
/// environmental transfer, autonomous agency. Reports of unknown sources are
/// dropped; ARC-AGI-3 reports go to generality and environmental transfer.
pub fn partition_reports(reports: Vec<EvidenceReport>) -> (groups: (
    Vec<EvidenceReport>,
    Vec<EvidenceReport>,
    Vec<EvidenceReport>,
    Vec<EvidenceReport>,
))
    ensures
        same_reports(groups.0@, group_of(reports@, 0)),
        same_reports(groups.1@, group_of(reports@, 1)),
        same_reports(groups.2@, group_of(reports@, 2)),
        same_reports(groups.3@, group_of(reports@, 3)),
{
    let mut generality: Vec<EvidenceReport> = Vec::new();
    let mut economic: Vec<EvidenceReport> = Vec::new();
    let mut environmental: Vec<EvidenceReport> = Vec::new();
    let mut agency: Vec<EvidenceReport> = Vec::new();
    let mut i: usize = 0;
    while i < reports.len()
        invariant
            i <= reports@.len(),
            same_reports(generality@, group_of(reports@.take(i as int), 0)),
            same_reports(economic@, group_of(reports@.take(i as int), 1)),
            same_reports(environmental@, group_of(reports@.take(i as int), 2)),
            same_reports(agency@, group_of(reports@.take(i as int), 3)),
        decreases reports@.len() - i,
    {
        let report = &reports[i];
        let ghost orig = reports@[i as int];
        assert(reports@.take(i + 1).drop_last() =~= reports@.take(i as int));
        assert(reports@.take(i + 1).last() == orig);
        let id = report.source.as_str();
        if text_eq(id, sources::generality::ARC_AGI_2) || text_eq(id, sources::generality::HLE)
            || text_eq(id, sources::generality::GPQA_DIAMOND) {
            push_report(&mut generality, report.duplicate(), Ghost(group_of(reports@.take(i as int), 0)), Ghost(orig));
        } else if text_eq(id, sources::economic_substitutability::GDPVAL) || text_eq(
            id,
            sources::economic_substitutability::GDPVAL_AA,
        ) || text_eq(id, sources::economic_substitutability::RLI) || text_eq(
            id,
            sources::economic_substitutability::APEX_AGENTS,
        ) {
            push_report(&mut economic, report.duplicate(), Ghost(group_of(reports@.take(i as int), 1)), Ghost(orig));
        } else if text_eq(id, sources::generality::ARC_AGI_3) {
            // ARC-AGI-3 contributes to both generality and environmental transfer
            push_report(&mut generality, report.duplicate(), Ghost(group_of(reports@.take(i as int), 0)), Ghost(orig));
            push_report(&mut environmental, report.duplicate(), Ghost(group_of(reports@.take(i as int), 2)), Ghost(orig));
        } else if text_eq(id, sources::environmental_transfer::OSWORLD) || text_eq(
            id,
            sources::environmental_transfer::NES,
        ) || text_eq(id, sources::environmental_transfer::WEBARENA) || text_eq(
            id,
            sources::environmental_transfer::SWE_BENCH_VERIFIED_PASS_AT_1,
        ) || text_eq(id, sources::environmental_transfer::ARIES) {
            push_report(&mut environmental, report.duplicate(), Ghost(group_of(reports@.take(i as int), 2)), Ghost(orig));
        } else if text_eq(id, sources::autonomous_agency::METR_80PCT_TIME_HORIZON) || text_eq(
            id,
            sources::autonomous_agency::RE_BENCH,
        ) || text_eq(id, sources::autonomous_agency::SWE_BENCH_VERIFIED) {
            push_report(&mut agency, report.duplicate(), Ghost(group_of(reports@.take(i as int), 3)), Ghost(orig));
        }
        proof {
            lemma_groups_disjoint(orig.source@);
        }
        i = i + 1;
    }
    assert(reports@.take(reports@.len() as int) =~= reports@);
    (generality, economic, environmental, agency)
}

proof fn lemma_groups_disjoint(id: Seq<char>)
    ensures
        in_group(id, 0) && in_group(id, 1) ==> false,
        in_group(id, 0) && in_group(id, 3) ==> false,
        in_group(id, 1) && in_group(id, 2) ==> false,
        in_group(id, 1) && in_group(id, 3) ==> false,
        in_group(id, 2) && in_group(id, 3) ==> false,
        in_group(id, 0) && in_group(id, 2) ==> id == sources::generality::ARC_AGI_3@,
        id == sources::generality::ARC_AGI_3@ ==> in_group(id, 0) && in_group(id, 2),
        id == sources::generality::ARC_AGI_2@ || id == sources::generality::HLE@ || id
            == sources::generality::GPQA_DIAMOND@ ==> !in_group(id, 2),
{
    crate::sources::lemma_unique_sources_are_distinct();
    let u = crate::sources::unique_sources();
    assert(u[0]@ == sources::generality::ARC_AGI_2@);
    assert(u[1]@ == sources::generality::ARC_AGI_3@);
    assert(u[2]@ == sources::generality::HLE@);
    assert(u[3]@ == sources::generality::GPQA_DIAMOND@);
    assert(u[4]@ == sources::economic_substitutability::GDPVAL@);
    assert(u[5]@ == sources::economic_substitutability::GDPVAL_AA@);
    assert(u[6]@ == sources::economic_substitutability::RLI@);
    assert(u[7]@ == sources::economic_substitutability::APEX_AGENTS@);
    assert(u[8]@ == sources::environmental_transfer::OSWORLD@);
    assert(u[9]@ == sources::environmental_transfer::NES@);
    assert(u[10]@ == sources::autonomous_agency::METR_80PCT_TIME_HORIZON@);
    assert(u[11]@ == sources::autonomous_agency::RE_BENCH@);
    assert(u[12]@ == sources::autonomous_agency::SWE_BENCH_VERIFIED@);
    assert(u[13]@ == sources::environmental_transfer::WEBARENA@);
    assert(u[14]@ == sources::environmental_transfer::SWE_BENCH_VERIFIED_PASS_AT_1@);
    assert(u[15]@ == sources::environmental_transfer::ARIES@);
}

/// The four conjunct statuses of a body of evidence, in conjunct order.
pub open spec fn statuses_of(ev: Seq<Evidence>) -> Seq<ConjunctStatus> {
    seq![generality_status(ev), economic_status(ev), environmental_status(ev), agency_status(ev)]
}

/// The output name of a verdict kind (see `verdict_kind`).
pub open spec fn verdict_name(kind: int) -> Seq<char> {
    if kind == 0 {
        "attested"@
    } else if kind == 1 {
        "not_attested"@
    } else {
        "insufficient_data"@
    }
}

/// "pass" or "fail".
pub open spec fn pass_fail(passed: bool) -> Seq<char> {
    if passed {
        "pass"@
    } else {
        "fail"@
    }
}

/// `line` alone when `b` holds, else nothing.
pub open spec fn line_if(b: bool, line: Seq<char>) -> Seq<Seq<char>> {
    if b {
        seq![line]
    } else {
        Seq::empty()
    }
}

/// The verdict reasons: the status of each conjunct that does not pass, then
/// the consistency check when it fails. Passing conditions are not listed.
pub open spec fn reason_lines(st: Seq<ConjunctStatus>, consistency_passed: bool) -> Seq<Seq<char>> {
    line_if(st[0] != ConjunctStatus::Pass, "Generality: "@ + status_name(st[0])) + line_if(
        st[1] != ConjunctStatus::Pass,
        "Economic Substitutability: "@ + status_name(st[1]),
    ) + line_if(st[2] != ConjunctStatus::Pass, "Environmental Transfer: "@ + status_name(st[2]))
        + line_if(st[3] != ConjunctStatus::Pass, "Autonomous Agency: "@ + status_name(st[3]))
        + line_if(!consistency_passed, "Consistency Check: fail"@)
}

/// Provider and version or release date of the frontier models whose
/// attestations carry them.
pub open spec fn known_model(id: Seq<char>) -> Option<(Seq<char>, Seq<char>)> {
    if id == "gpt-4-turbo"@ {
        Some(("OpenAI"@, "2024-04"@))
    } else if id == "gemini-2.0-flash"@ {
        Some(("Google"@, "2024-12"@))
    } else if id == "llama3-70b"@ {
        Some(("Meta"@, "2024-04"@))
    } else {
        None
    }
}

/// `m` describes model `id`: its ID, and its provider and version or date
/// exactly when it is a known model.
pub open spec fn metadata_of(m: ModelMetadata, id: Seq<char>) -> bool {
    &&& m.id@ == id
    &&& opt_text(m.provider) == match known_model(id) {
        Some(k) => Some(k.0),
        None => None::<Seq<char>>,
    }
    &&& opt_text(m.version_or_date) == match known_model(id) {
        Some(k) => Some(k.1),
        None => None::<Seq<char>>,
    }
}

/// The model metadata of a model: its ID, and provider and version or date
/// when it is a known model.
pub fn model_metadata(model_id: &str) -> (m: ModelMetadata)
    ensures
        metadata_of(m, model_id@),
{
    let (provider, version): (&str, &str) = if text_eq(model_id, "gpt-4-turbo") {
        ("OpenAI", "2024-04")
    } else if text_eq(model_id, "gemini-2.0-flash") {
        ("Google", "2024-12")
    } else if text_eq(model_id, "llama3-70b") {
        ("Meta", "2024-04")
    } else {
        return ModelMetadata { id: String::from_str(model_id), provider: None, version_or_date: None };
    };
    ModelMetadata {
        id: String::from_str(model_id),
        provider: Some(String::from_str(provider)),
        version_or_date: Some(String::from_str(version)),
    }
}

fn pass_fail_text(passed: bool) -> (s: &'static str)
    ensures
        s@ == pass_fail(passed),
{
    if passed {
        "pass"
    } else {
        "fail"
    }
}

fn verdict_text(v: &Verdict) -> (s: &'static str)
    ensures
        s@ == verdict_name(
            if v is Attested {
                0
            } else if v is NotAttested {
                1
            } else {
                2
            },
        ),
{
    match v {
        Verdict::Attested => "attested",
        Verdict::NotAttested { .. } => "not_attested",
        Verdict::InsufficientData { .. } => "insufficient_data",
    }
}

fn labelled_status(label: &str, status: ConjunctStatus) -> (s: String)
    ensures
        s@ == label@ + status_name(status),
{
    let name = status_to_string(status);
    concat2(label, name.as_str())
}

/// Attest a model from its evidence.
///
/// Evaluates the four conjuncts, runs the consistency check, applies the
/// verdict table, and assembles the output: the model, each conjunct's status
/// and evidence reports (grouped by conjunct), the consistency result, the
/// verdict, one reason line per conjunct and for the consistency check, and
/// the given known gaps.
pub fn attest(
    model_id: &str,
    evidence: &[Evidence],
    reports: Vec<EvidenceReport>,
    run_timestamp: String,
    known_gaps: Vec<String>,
) -> (out: VerdictOutput)
    ensures
        out.spec_version@ == SPEC_VERSION@,
        out.runner_version@ == VERSION@,
        out.run_timestamp@ == run_timestamp@,
        out.model.id@ == model_id@,
        metadata_of(out.model, model_id@),
        out.conjuncts.generality.status@ == status_name(generality_status(evidence@)),
        out.conjuncts.economic_substitutability.status@ == status_name(economic_status(evidence@)),
        out.conjuncts.environmental_transfer.status@ == status_name(
            environmental_status(evidence@),
        ),
        out.conjuncts.autonomous_agency.status@ == status_name(agency_status(evidence@)),
        same_reports(out.conjuncts.generality.evidence@, group_of(reports@, 0)),
        same_reports(out.conjuncts.economic_substitutability.evidence@, group_of(reports@, 1)),
        same_reports(out.conjuncts.environmental_transfer.evidence@, group_of(reports@, 2)),
        same_reports(out.conjuncts.autonomous_agency.evidence@, group_of(reports@, 3)),
        out.conjuncts.generality.margins is None,
        out.conjuncts.economic_substitutability.margins is None,
        out.conjuncts.environmental_transfer.margins is None,
        out.conjuncts.autonomous_agency.margins is None,
        out.consistency_check.status@ == pass_fail(
            failed_rules_of(evidence@, statuses_of(evidence@)).len() == 0,
        ),
        texts(out.consistency_check.failed_rules@) == failed_rules_of(
            evidence@,
            statuses_of(evidence@),
        ),
        failed_rules_of(evidence@, statuses_of(evidence@)).len() == 0 && evidence@.len() > 0
            ==> out.consistency_check.detail is None,
        failed_rules_of(evidence@, statuses_of(evidence@)).len() == 0 && evidence@.len() == 0
            ==> (out.consistency_check.detail matches Some(d) && d@ == SKIPPED_DETAIL@),
        failed_rules_of(evidence@, statuses_of(evidence@)).len() != 0 ==> (
        out.consistency_check.detail matches Some(d) && d@ == "Consistency check failed on: "@
            + join(failed_rules_of(evidence@, statuses_of(evidence@)), ", "@)),
        out.verdict@ == verdict_name(
            verdict_kind(
                statuses_of(evidence@),
                failed_rules_of(evidence@, statuses_of(evidence@)).len() == 0,
            ),
        ),
        texts(out.verdict_reasons@) == reason_lines(
            statuses_of(evidence@),
            failed_rules_of(evidence@, statuses_of(evidence@)).len() == 0,
        ),
        texts(out.known_gaps_acknowledged@) == texts(known_gaps@),
{
    // Evaluate each conjunct
    let generality_status = evaluate_generality(evidence);
    let econ_status = evaluate_economic_substitutability(evidence);
    let env_status = evaluate_environmental_transfer(evidence);
    let agency_status = evaluate_autonomous_agency(evidence);
    let conjunct_statuses = [generality_status, econ_status, env_status, agency_status];
    assert(conjunct_statuses@ =~= statuses_of(evidence@));

    // Consistency check on the same evidence
    let consistency_result = consistency_check(evidence, &conjunct_statuses);

    // The verdict table decides the verdict
    let overall = verdict(&conjunct_statuses, &consistency_result);

    let (generality_evidence, econ_evidence, env_evidence, agency_evidence) = partition_reports(
        reports,
    );

    // Only failing or insufficient conditions are listed as reasons
    let mut verdict_reasons: Vec<String> = Vec::new();
    let ghost st = conjunct_statuses@;
    if generality_status != ConjunctStatus::Pass {
        verdict_reasons.push(labelled_status("Generality: ", generality_status));
    }
    assert(texts(verdict_reasons@) =~= line_if(st[0] != ConjunctStatus::Pass, "Generality: "@ + status_name(st[0])));
    let ghost r1 = texts(verdict_reasons@);
    if econ_status != ConjunctStatus::Pass {
        verdict_reasons.push(labelled_status("Economic Substitutability: ", econ_status));
    }
    assert(texts(verdict_reasons@) =~= r1 + line_if(st[1] != ConjunctStatus::Pass, "Economic Substitutability: "@ + status_name(st[1])));
    let ghost r2 = texts(verdict_reasons@);
    if env_status != ConjunctStatus::Pass {
        verdict_reasons.push(labelled_status("Environmental Transfer: ", env_status));
    }
    assert(texts(verdict_reasons@) =~= r2 + line_if(st[2] != ConjunctStatus::Pass, "Environmental Transfer: "@ + status_name(st[2])));
    let ghost r3 = texts(verdict_reasons@);
    if agency_status != ConjunctStatus::Pass {
        verdict_reasons.push(labelled_status("Autonomous Agency: ", agency_status));
    }
    assert(texts(verdict_reasons@) =~= r3 + line_if(st[3] != ConjunctStatus::Pass, "Autonomous Agency: "@ + status_name(st[3])));
    let ghost r4 = texts(verdict_reasons@);
    if !consistency_result.passed {
        verdict_reasons.push(String::from_str("Consistency Check: fail"));
    }
    assert(texts(verdict_reasons@) =~= r4 + line_if(!consistency_result.passed, "Consistency Check: fail"@));
    assert(texts(verdict_reasons@) =~= reason_lines(
        statuses_of(evidence@),
        consistency_result.passed,
    ));

    let verdict_name_text = verdict_text(&overall);
    VerdictOutput {
        spec_version: String::from_str(SPEC_VERSION),
        runner_version: String::from_str(VERSION),
        run_timestamp,
        model: model_metadata(model_id),
        conjuncts: ConjunctsOutput {
            generality: ConjunctReport {
                status: status_to_string(generality_status),
                evidence: generality_evidence,
                margins: None,
            },
            economic_substitutability: ConjunctReport {
                status: status_to_string(econ_status),
                evidence: econ_evidence,
                margins: None,
            },
            environmental_transfer: ConjunctReport {
                status: status_to_string(env_status),
                evidence: env_evidence,
                margins: None,
            },
            autonomous_agency: ConjunctReport {
                status: status_to_string(agency_status),
                evidence: agency_evidence,
                margins: None,
            },
        },
        consistency_check: ConsistencyCheckOutput {
            status: String::from_str(pass_fail_text(consistency_result.passed)),
            failed_rules: consistency_result.failed_rules,
            detail: consistency_result.detail,
        },
        verdict: String::from_str(verdict_name_text),
        verdict_reasons,
        known_gaps_acknowledged: known_gaps,
    }
}

/// The pass threshold reported for a source: that of the first conjunct it
/// counts towards (ARC-AGI-3 has the same threshold in both of its conjuncts).
pub open spec fn report_threshold(id: Seq<char>) -> Option<u64> {
    match source_thresholds(id) {
        Some(ts) => Some(ts[0].1),
        None => None,
    }
}

/// The floor reported for a source, as for its threshold.
pub open spec fn report_floor(id: Seq<char>) -> Option<u64> {
    match source_thresholds(id) {
        Some(ts) => ts[0].2,
        None => None,
    }
}

/// `r` reports evidence `e`: its source, measurement, value, the source's
/// threshold and floor with the comparisons against them, its reliability and
/// its provenance.
pub open spec fn reports_evidence(r: EvidenceReport, e: Evidence) -> bool {
    let v = e.value.millionths();
    &&& r.source@ == e.source@
    &&& r.measurement@ == e.measurement@
    &&& r.value@ == decimal_text(v as int)
    &&& r.threshold == match report_threshold(e.source@) {
        Some(t) => Some(t as i64),
        None => None::<i64>,
    }
    &&& r.floor == match report_floor(e.source@) {
        Some(f) => Some(f as i64),
        None => None::<i64>,
    }
    &&& r.passes_threshold == match report_threshold(e.source@) {
        Some(t) => Some(v >= t),
        None => None::<bool>,
    }
    &&& r.below_floor == match report_floor(e.source@) {
        Some(f) => Some(v < f),
        None => None::<bool>,
    }
    &&& r.reliability_percentile == e.reliability_percentile
    &&& r.provenance.source_url@ == e.provenance.source_url@
    &&& r.provenance.fetch_timestamp@ == e.provenance.fetch_timestamp@
    &&& opt_text(r.provenance.source_version) == opt_text(e.provenance.source_version)
    &&& r.provenance.raw_value@ == e.provenance.raw_value@
}

/// `rs` reports the evidence `es`, one for one, in order.
pub open spec fn reports_match(rs: Seq<EvidenceReport>, es: Seq<Evidence>) -> bool {
    rs.len() == es.len() && forall|i: int| 0 <= i < rs.len() ==> reports_evidence(#[trigger] rs[i], es[i])
}

/// The evidence of `es` whose source belongs to conjunct `k`, in order.
pub open spec fn evidence_group(es: Seq<Evidence>, k: int) -> Seq<Evidence>
    decreases es.len(),
{
    if es.len() == 0 {
        Seq::empty()
    } else if in_group(es.last().source@, k) {
        evidence_group(es.drop_last(), k).push(es.last())
    } else {
        evidence_group(es.drop_last(), k)
    }
}

proof fn lemma_group_reports(rs: Seq<EvidenceReport>, es: Seq<Evidence>, k: int)
    requires
        reports_match(rs, es),
    ensures
        reports_match(group_of(rs, k), evidence_group(es, k)),
    decreases rs.len(),
{
    if rs.len() > 0 {
        assert(reports_evidence(rs[rs.len() - 1], es[es.len() - 1]));
        assert(reports_match(rs.drop_last(), es.drop_last()));
        lemma_group_reports(rs.drop_last(), es.drop_last(), k);
    }
}

proof fn lemma_same_reports_match(a: Seq<EvidenceReport>, b: Seq<EvidenceReport>, es: Seq<Evidence>)
    requires
        same_reports(a, b),
        reports_match(b, es),
    ensures
        reports_match(a, es),
{
    assert forall|i: int| 0 <= i < a.len() implies reports_evidence(#[trigger] a[i], es[i]) by {
        assert(same_report(a[i], b[i]));
        assert(reports_evidence(b[i], es[i]));
    }
}

/// The report of one evidence entry.
pub fn evidence_report(e: &Evidence) -> (r: EvidenceReport)
    ensures
        reports_evidence(r, *e),
{
    let v = e.value.raw_millionths();
    proof {
        lemma_thresholds_bounded(e.source@);
    }
    let (threshold, floor, passes, below): (Option<i64>, Option<i64>, Option<bool>, Option<bool>) =
        match get_source_threshold(e.source.as_str()) {
        Some(ts) => {
            let (_, t, f) = ts[0];
            match f {
                Some(x) => (Some(t as i64), Some(x as i64), Some(v >= t), Some(v < x)),
                None => (Some(t as i64), None, Some(v >= t), None),
            }
        },
        None => (None, None, None, None),
    };
    let source_version = match &e.provenance.source_version {
        Some(sv) => Some(sv.clone()),
        None => None,
    };
    EvidenceReport {
        source: String::from_str(e.source.as_str()),
        measurement: String::from_str(e.measurement.as_str()),
        value: unsigned_decimal_text(v),
        threshold,
        floor,
        passes_threshold: passes,
        below_floor: below,
        reliability_percentile: e.reliability_percentile,
        provenance: ProvenanceReport {
            source_url: String::from_str(e.provenance.source_url.as_str()),
            fetch_timestamp: e.provenance.fetch_timestamp.clone(),
            source_version,
            raw_value: e.provenance.raw_value.clone(),
        },
    }
}

/// The reports of a body of evidence, in order.
pub fn evidence_reports(evidence: &[Evidence]) -> (rs: Vec<EvidenceReport>)
    ensures
        reports_match(rs@, evidence@),
{
    let mut rs: Vec<EvidenceReport> = Vec::new();
    let mut i: usize = 0;
    while i < evidence.len()
        invariant
            i <= evidence@.len(),
            rs@.len() == i,
            forall|j: int| 0 <= j < i ==> reports_evidence(#[trigger] rs@[j], evidence@[j]),
        decreases evidence@.len() - i,
    {
        rs.push(evidence_report(&evidence[i]));
        i = i + 1;
    }
    rs
}

/// Known gap reported by fixture-based attestation.
pub const FIXTURE_GAP: &'static str = "Fixture-based attestation uses only provided evidence";

/// Attest a model from evidence loaded from fixtures: stamp the run with the
/// current time, evaluate the evidence, and acknowledge that only the provided
/// evidence was used. Each conjunct lists the reports of the evidence of
/// its sources, in order.
pub fn attest_fixture_evidence(model_id: &str, evidence: &[Evidence]) -> (out: VerdictOutput)
    ensures
        is_utc_stamp(out.run_timestamp@),
        out.spec_version@ == SPEC_VERSION@,
        out.runner_version@ == VERSION@,
        out.model.id@ == model_id@,
        metadata_of(out.model, model_id@),
        out.conjuncts.generality.status@ == status_name(generality_status(evidence@)),
        out.conjuncts.economic_substitutability.status@ == status_name(economic_status(evidence@)),
        out.conjuncts.environmental_transfer.status@ == status_name(
            environmental_status(evidence@),
        ),
        out.conjuncts.autonomous_agency.status@ == status_name(agency_status(evidence@)),
        reports_match(out.conjuncts.generality.evidence@, evidence_group(evidence@, 0)),
        reports_match(
            out.conjuncts.economic_substitutability.evidence@,
            evidence_group(evidence@, 1),
        ),
        reports_match(out.conjuncts.environmental_transfer.evidence@, evidence_group(evidence@, 2)),
        reports_match(out.conjuncts.autonomous_agency.evidence@, evidence_group(evidence@, 3)),
        out.consistency_check.status@ == pass_fail(
            failed_rules_of(evidence@, statuses_of(evidence@)).len() == 0,
        ),
        texts(out.consistency_check.failed_rules@) == failed_rules_of(
            evidence@,
            statuses_of(evidence@),
        ),
        out.verdict@ == verdict_name(
            verdict_kind(
                statuses_of(evidence@),
                failed_rules_of(evidence@, statuses_of(evidence@)).len() == 0,
            ),
        ),
        texts(out.verdict_reasons@) == reason_lines(
            statuses_of(evidence@),
            failed_rules_of(evidence@, statuses_of(evidence@)).len() == 0,
        ),
        failed_rules_of(evidence@, statuses_of(evidence@)).len() == 0 && evidence@.len() > 0
            ==> out.consistency_check.detail is None,
        failed_rules_of(evidence@, statuses_of(evidence@)).len() == 0 && evidence@.len() == 0
            ==> (out.consistency_check.detail matches Some(d) && d@ == SKIPPED_DETAIL@),
        failed_rules_of(evidence@, statuses_of(evidence@)).len() != 0 ==> (
        out.consistency_check.detail matches Some(d) && d@ == "Consistency check failed on: "@
            + join(failed_rules_of(evidence@, statuses_of(evidence@)), ", "@)),
        texts(out.known_gaps_acknowledged@) == seq![FIXTURE_GAP@],
{
    let run_timestamp = utc_now_rfc3339(true);
    let reports = evidence_reports(evidence);
    let ghost reps = reports@;
    let mut known_gaps: Vec<String> = Vec::new();
    known_gaps.push(String::from_str(FIXTURE_GAP));
    assert(texts(known_gaps@) =~= seq![FIXTURE_GAP@]);
    let out = attest(model_id, evidence, reports, run_timestamp, known_gaps);
    proof {
        lemma_group_reports(reps, evidence@, 0);
        lemma_group_reports(reps, evidence@, 1);
        lemma_group_reports(reps, evidence@, 2);
        lemma_group_reports(reps, evidence@, 3);
        lemma_same_reports_match(
            out.conjuncts.generality.evidence@,
            group_of(reps, 0),
            evidence_group(evidence@, 0),
        );
        lemma_same_reports_match(
            out.conjuncts.economic_substitutability.evidence@,
            group_of(reps, 1),
            evidence_group(evidence@, 1),
        );
        lemma_same_reports_match(
            out.conjuncts.environmental_transfer.evidence@,
            group_of(reps, 2),
            evidence_group(evidence@, 2),
        );
        lemma_same_reports_match(
            out.conjuncts.autonomous_agency.evidence@,
            group_of(reps, 3),
            evidence_group(evidence@, 3),
        );
    }
    out
}

/// Perform live attestation: stamp the run with the current time and
/// evaluate the evidence collected from upstream sources. Collection from the
/// upstream sources is not wired yet, so the evidence is empty and every
/// conjunct reports insufficient data. The NES gap is acknowledged.
pub fn attest_live(model_id: &str) -> (out: VerdictOutput)
    ensures
        is_utc_stamp(out.run_timestamp@),
        out.model.id@ == model_id@,
        out.spec_version@ == SPEC_VERSION@,
        out.verdict@ == verdict_name(
            verdict_kind(
                statuses_of(Seq::<Evidence>::empty()),
                failed_rules_of(Seq::<Evidence>::empty(), statuses_of(Seq::<Evidence>::empty())).len()
                    == 0,
            ),
        ),
        out.conjuncts.generality.status@ == status_name(generality_status(Seq::empty())),
        out.conjuncts.economic_substitutability.status@ == status_name(economic_status(Seq::empty())),
        out.conjuncts.environmental_transfer.status@ == status_name(
            environmental_status(Seq::empty()),
        ),
        out.conjuncts.autonomous_agency.status@ == status_name(agency_status(Seq::empty())),
        out.conjuncts.generality.evidence@.len() == 0,
        out.conjuncts.economic_substitutability.evidence@.len() == 0,
        out.conjuncts.environmental_transfer.evidence@.len() == 0,
        out.conjuncts.autonomous_agency.evidence@.len() == 0,
        out.runner_version@ == VERSION@,
        metadata_of(out.model, model_id@),
        out.consistency_check.status@ == pass_fail(
            failed_rules_of(Seq::<Evidence>::empty(), statuses_of(Seq::<Evidence>::empty())).len()
                == 0,
        ),
        texts(out.consistency_check.failed_rules@) == failed_rules_of(
            Seq::<Evidence>::empty(),
            statuses_of(Seq::<Evidence>::empty()),
        ),
        texts(out.verdict_reasons@) == reason_lines(
            statuses_of(Seq::<Evidence>::empty()),
            failed_rules_of(Seq::<Evidence>::empty(), statuses_of(Seq::<Evidence>::empty())).len()
                == 0,
        ),
        failed_rules_of(Seq::<Evidence>::empty(), statuses_of(Seq::<Evidence>::empty())).len() == 0
            ==> (out.consistency_check.detail matches Some(d) && d@ == SKIPPED_DETAIL@),
        failed_rules_of(Seq::<Evidence>::empty(), statuses_of(Seq::<Evidence>::empty())).len() != 0
            ==> (out.consistency_check.detail matches Some(d) && d@
            == "Consistency check failed on: "@ + join(
            failed_rules_of(Seq::<Evidence>::empty(), statuses_of(Seq::<Evidence>::empty())),
            ", "@,
        )),
        texts(out.known_gaps_acknowledged@) == seq![NES_GAP@],
{
    let run_timestamp = utc_now_rfc3339(true);
    let all_evidence: Vec<Evidence> = Vec::new();
    let evidence_reports: Vec<EvidenceReport> = Vec::new();
    let mut known_gaps: Vec<String> = Vec::new();
    known_gaps.push(String::from_str(NES_GAP));
    assert(texts(known_gaps@) =~= seq![NES_GAP@]);
    assert(all_evidence@ =~= Seq::<Evidence>::empty());
    assert(evidence_reports@ =~= Seq::<EvidenceReport>::empty());
    attest(model_id, all_evidence.as_slice(), evidence_reports, run_timestamp, known_gaps)
}

} // verus!
