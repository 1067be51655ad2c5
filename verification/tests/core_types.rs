//! Tests of the core types, the verdict table, the source lists and the
//! facade re-exports.

use agi4::conjunct::{status_to_string, Conjunct, ConjunctStatus};
use agi4::consistency::{consistency_check, ConsistencyResult};
use agi4::evidence::{
    BoundedFraction, Evidence, MeasurementId, NonNegativeHours, Provenance, SourceId, SourceUrl,
    SourceValue,
};
use agi4::sources::{
    all_unique_sources, autonomous_agency, economic_substitutability, environmental_transfer,
    generality,
};
use agi4::verdict::{verdict, Verdict};
use agi4::{SPEC_VERSION, VERSION};

fn sample_evidence() -> Evidence {
    Evidence {
        source: SourceId::new("test-source"),
        measurement: MeasurementId::new("test-measurement"),
        value: SourceValue::Fraction(BoundedFraction::new(750_000).unwrap()),
        reliability_percentile: 95,
        provenance: Provenance {
            source_url: SourceUrl::parse("https://example.com").unwrap(),
            fetch_timestamp: chrono::Utc::now().to_rfc3339(),
            source_version: Some("1.0".to_string()),
            raw_value: "75.0%".to_string(),
        },
    }
}

#[test]
fn conjunct_debug_works() {
    let c = Conjunct::Generality;
    let debug_str = format!("{:?}", c);
    assert!(!debug_str.is_empty());
    assert!(debug_str.contains("Generality"));
}

#[test]
fn conjunct_clone_works() {
    let c1 = Conjunct::EconomicSubstitutability;
    let c2 = c1;
    assert_eq!(c1, c2);
}

#[test]
fn conjunct_status_debug_works() {
    let statuses = vec![
        ConjunctStatus::Pass,
        ConjunctStatus::Partial,
        ConjunctStatus::Fail,
        ConjunctStatus::InsufficientData,
    ];
    for status in statuses {
        let debug_str = format!("{:?}", status);
        assert!(!debug_str.is_empty());
    }
}

#[test]
fn conjunct_status_clone_works() {
    let s1 = ConjunctStatus::Pass;
    let s2 = s1;
    assert_eq!(s1, s2);
}

#[test]
fn evidence_debug_works() {
    let evidence = sample_evidence();
    let debug_str = format!("{:?}", evidence);
    assert!(!debug_str.is_empty());
}

#[test]
fn evidence_clone_works() {
    let evidence = sample_evidence();
    let cloned = evidence.clone();
    assert_eq!(evidence.source, cloned.source);
}

#[test]
fn bounded_fraction_debug_works() {
    let bf = BoundedFraction::new(500_000).unwrap();
    let debug_str = format!("{:?}", bf);
    assert!(!debug_str.is_empty());
}

#[test]
fn bounded_fraction_clone_works() {
    let bf1 = BoundedFraction::new(500_000).unwrap();
    let bf2 = bf1;
    assert_eq!(bf1, bf2);
}

#[test]
fn non_negative_hours_debug_works() {
    let nnh = NonNegativeHours::new(24_000_000).unwrap();
    let debug_str = format!("{:?}", nnh);
    assert!(!debug_str.is_empty());
}

#[test]
fn non_negative_hours_clone_works() {
    let nnh1 = NonNegativeHours::new(24_000_000).unwrap();
    let nnh2 = nnh1;
    assert_eq!(nnh1, nnh2);
}

#[test]
fn verdict_debug_works() {
    let v = Verdict::attested();
    let debug_str = format!("{:?}", v);
    assert!(!debug_str.is_empty());
}

#[test]
fn verdict_clone_works() {
    let v1 = Verdict::not_attested(vec!["reason"]);
    let v2 = v1.clone();
    // Just verify it clones without panic
    let _ = format!("{:?}", v2);
}

#[test]
fn consistency_result_debug_works() {
    let cr = ConsistencyResult::pass();
    let debug_str = format!("{:?}", cr);
    assert!(!debug_str.is_empty());
}

#[test]
fn consistency_result_clone_works() {
    let cr1 = ConsistencyResult::pass();
    let cr2 = cr1.clone();
    assert_eq!(cr1.passed, cr2.passed);
}

#[test]
fn all_unique_sources_are_unique() {
    let all = all_unique_sources();
    let mut seen = std::collections::HashSet::new();
    for source in all {
        assert!(seen.insert(source), "Duplicate source ID: {}", source);
    }
}

#[test]
fn conjunct_source_lists_are_correct() {
    assert_eq!(generality::all().len(), 4);
    assert_eq!(economic_substitutability::all().len(), 4);
    assert_eq!(environmental_transfer::all().len(), 3);
    assert_eq!(autonomous_agency::all().len(), 3);
}

#[test]
fn facade_re_exports_core_types() {
    // Verify ConjunctStatus is re-exported
    let status = agi4::ConjunctStatus::Pass;
    assert_eq!(status, agi4::ConjunctStatus::Pass);
}

#[test]
fn facade_re_exports_schema_types() {
    // Verify VerdictOutput is re-exported at top level
    let none: Option<agi4::VerdictOutput> = None;
    assert!(none.is_none());
}

#[test]
fn facade_provides_version_constants() {
    // Verify version constants are accessible
    assert_eq!(SPEC_VERSION, "0.1.0");
    let _ = VERSION;
}

#[test]
fn facade_modules_are_accessible() {
    // Verify submodules are accessible for more detailed imports
    let status: agi4::conjunct::ConjunctStatus = agi4::conjunct::ConjunctStatus::Fail;
    assert_eq!(status, agi4::ConjunctStatus::Fail);
    let none: Option<agi4::schema::VerdictOutput> = None;
    assert!(none.is_none());
}

#[test]
fn status_names() {
    assert_eq!(status_to_string(ConjunctStatus::Pass), "pass");
    assert_eq!(status_to_string(ConjunctStatus::Partial), "partial");
    assert_eq!(status_to_string(ConjunctStatus::Fail), "fail");
    assert_eq!(status_to_string(ConjunctStatus::InsufficientData), "insufficient_data");
}

const P: ConjunctStatus = ConjunctStatus::Pass;
const PA: ConjunctStatus = ConjunctStatus::Partial;
const F: ConjunctStatus = ConjunctStatus::Fail;
const I: ConjunctStatus = ConjunctStatus::InsufficientData;

fn failed_consistency() -> ConsistencyResult {
    ConsistencyResult::fail(vec!["rule_2_variance_bound"], "detail".to_string())
}

#[test]
fn verdict_all_pass_and_consistent_is_attested() {
    assert!(matches!(verdict(&[P, P, P, P], &ConsistencyResult::pass()), Verdict::Attested));
}

#[test]
fn verdict_all_pass_inconsistent_is_not_attested() {
    match verdict(&[P, P, P, P], &failed_consistency()) {
        Verdict::NotAttested { reasons } => {
            assert_eq!(reasons, vec!["rule_2_variance_bound".to_string()])
        }
        other => panic!("expected not_attested, got {:?}", other),
    }
}

#[test]
fn verdict_fail_dominates_insufficient_data() {
    match verdict(&[F, I, P, P], &ConsistencyResult::pass()) {
        Verdict::NotAttested { reasons } => assert_eq!(
            reasons,
            vec!["generality".to_string(), "economic_substitutability".to_string()]
        ),
        other => panic!("expected not_attested, got {:?}", other),
    }
}

#[test]
fn verdict_insufficient_without_fail() {
    match verdict(&[P, PA, I, I], &ConsistencyResult::pass()) {
        Verdict::InsufficientData { missing } => assert_eq!(
            missing,
            vec!["environmental_transfer".to_string(), "autonomous_agency".to_string()]
        ),
        other => panic!("expected insufficient_data, got {:?}", other),
    }
}

#[test]
fn verdict_partial_is_not_attested() {
    match verdict(&[P, P, PA, P], &ConsistencyResult::pass()) {
        Verdict::NotAttested { reasons } => {
            assert_eq!(reasons, vec!["environmental_transfer".to_string()])
        }
        other => panic!("expected not_attested, got {:?}", other),
    }
}

#[test]
fn masking_pattern_fails_consistency_and_lacks_data() {
    let statuses = [P, P, P, I];
    let evidence: Vec<Evidence> = Vec::new();
    let c = consistency_check(&evidence, &statuses);
    assert!(!c.passed);
    assert!(matches!(verdict(&statuses, &c), Verdict::InsufficientData { .. }));
}

#[test]
fn verdict_constructors() {
    match Verdict::insufficient_data(vec!["generality"]) {
        Verdict::InsufficientData { missing } => assert_eq!(missing, vec!["generality".to_string()]),
        _ => panic!("expected insufficient_data"),
    }
}
