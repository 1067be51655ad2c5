//! Tests of fixture records: which adapter a directory belongs to, and the
//! conversion of a record into evidence.

use agi4::adapters::arc_prize::{ArcAgi2Score, ArcAgi3Score, ArcPrizeRaw};
use agi4::adapters::metr::MetrRaw;
use agi4::adapters::swe_bench::SweBenchRaw;
use agi4::adapters::ModelId;
use agi4::attest::{attest_fixture_evidence, FIXTURE_GAP};
use agi4::fixtures::{fixture_evidence, fixture_source, FixtureRecord, FixtureSource};

#[test]
fn fixture_directories_name_sources() {
    assert_eq!(fixture_source("metr"), Some(FixtureSource::Metr));
    assert_eq!(fixture_source("arc-prize"), Some(FixtureSource::ArcPrize));
    assert_eq!(fixture_source("swe-bench"), Some(FixtureSource::SweBench));
    assert_eq!(fixture_source("re-bench"), Some(FixtureSource::ReBench));
    assert_eq!(fixture_source("nes"), None);
    assert_eq!(fixture_source("METR"), None);
    assert_eq!(FixtureSource::SweBench.label(), "SWE-Bench");
    assert_eq!(FixtureSource::ArcPrize.label(), "ARC Prize");
}

#[test]
fn fixture_record_converts_through_its_adapter() {
    let model = ModelId::new("m");
    let v = fixture_evidence(FixtureRecord::Metr(MetrRaw { value: 168_000_000 }), &model).unwrap();
    assert_eq!(v.len(), 1);
    assert_eq!(v[0].source.as_str(), "metr-80pct-time-horizon");
    assert_eq!(v[0].provenance.raw_value, "168");

    let arc = ArcPrizeRaw {
        arc_agi_2: ArcAgi2Score { pass_rate: 870_000 },
        arc_agi_3: ArcAgi3Score { pass_rate: 520_000 },
    };
    let v = fixture_evidence(FixtureRecord::ArcPrize(arc), &model).unwrap();
    assert_eq!(v.len(), 2);
    assert_eq!(v[1].source.as_str(), "arc-agi-3");
}

#[test]
fn fixture_record_rejected_gives_warning_text() {
    let model = ModelId::new("m");
    let err = fixture_evidence(FixtureRecord::Metr(MetrRaw { value: -1 }), &model).unwrap_err();
    assert_eq!(
        err,
        "failed to convert METR evidence: METR validation error: invalid hours value: hours must be non-negative"
    );
    let err = fixture_evidence(
        FixtureRecord::SweBench(SweBenchRaw { pass_at_k: 1, success_rate: 900_000 }),
        &model,
    )
    .unwrap_err();
    assert_eq!(
        err,
        "failed to convert SWE-Bench evidence: SWE-bench validation error: pass@1 not acceptable; SPEC requires pass@k where k >= 5"
    );
    let arc = ArcPrizeRaw {
        arc_agi_2: ArcAgi2Score { pass_rate: 500_000 },
        arc_agi_3: ArcAgi3Score { pass_rate: 1_500_000 },
    };
    let err = fixture_evidence(FixtureRecord::ArcPrize(arc), &model).unwrap_err();
    assert_eq!(
        err,
        "failed to convert ARC Prize evidence: ARC Prize validation error: ARC-AGI-3 validation: fraction must lie in [0.0, 1.0]"
    );
}

#[test]
fn fixture_attestation_acknowledges_its_gap() {
    let model = ModelId::new("m");
    let evidence =
        fixture_evidence(FixtureRecord::Metr(MetrRaw { value: 168_000_000 }), &model).unwrap();
    let out = attest_fixture_evidence("m", &evidence);
    assert_eq!(out.known_gaps_acknowledged, vec![FIXTURE_GAP.to_string()]);
    assert_eq!(out.conjuncts.autonomous_agency.status, "insufficient_data");
    assert_eq!(out.verdict, "insufficient_data");
    assert!(out.conjuncts.generality.evidence.is_empty());
    // the converted evidence is reported under its conjunct
    let reports = &out.conjuncts.autonomous_agency.evidence;
    assert_eq!(reports.len(), 1);
    assert_eq!(reports[0].source, "metr-80pct-time-horizon");
    assert_eq!(reports[0].reliability_percentile, 80);
    assert_eq!(reports[0].provenance.raw_value, "168");
    assert_eq!(reports[0].value, "168");
    assert_eq!(reports[0].threshold, Some(168_000_000));
    assert_eq!(reports[0].floor, Some(8_000_000));
    assert_eq!(reports[0].passes_threshold, Some(true));
    assert_eq!(reports[0].below_floor, Some(false));
    assert!(!reports[0].provenance.source_url.is_empty());
    assert!(!reports[0].provenance.fetch_timestamp.is_empty());
}

#[test]
fn fixture_reports_follow_source_groups() {
    let model = ModelId::new("m");
    let arc = ArcPrizeRaw {
        arc_agi_2: ArcAgi2Score { pass_rate: 870_000 },
        arc_agi_3: ArcAgi3Score { pass_rate: 520_000 },
    };
    let evidence = fixture_evidence(FixtureRecord::ArcPrize(arc), &model).unwrap();
    let out = attest_fixture_evidence("m", &evidence);
    let sources = |c: &agi4::ConjunctReport| c.evidence.iter().map(|r| r.source.clone()).collect::<Vec<_>>();
    assert_eq!(sources(&out.conjuncts.generality), vec!["arc-agi-2", "arc-agi-3"]);
    assert_eq!(sources(&out.conjuncts.environmental_transfer), vec!["arc-agi-3"]);
    assert!(out.conjuncts.economic_substitutability.evidence.is_empty());
    assert_eq!(out.conjuncts.generality.evidence[0].threshold, Some(850_000));
    assert_eq!(out.conjuncts.generality.evidence[0].passes_threshold, Some(true));
    assert_eq!(out.conjuncts.generality.evidence[1].value, "0.52");
}

#[test]
fn fixture_evidence_is_stamped_and_independent_of_model() {
    let a = fixture_evidence(FixtureRecord::Metr(MetrRaw { value: 168_000_000 }), &ModelId::new("a"))
        .unwrap();
    let b = fixture_evidence(FixtureRecord::Metr(MetrRaw { value: 168_000_000 }), &ModelId::new("b"))
        .unwrap();
    assert!(!a[0].provenance.source_url.as_str().is_empty());
    assert!(a[0].provenance.fetch_timestamp.ends_with('Z'));
    assert_eq!(a[0].source, b[0].source);
    assert_eq!(a[0].provenance.raw_value, b[0].provenance.raw_value);
    assert_eq!(a[0].provenance.source_url, b[0].provenance.source_url);
    let out = attest_fixture_evidence("m", &a);
    assert!(out.run_timestamp.ends_with('Z'));
}
