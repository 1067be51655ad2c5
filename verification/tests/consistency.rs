//! Tests of the cross-conjunct consistency check.

use agi4::conjunct::ConjunctStatus;
use agi4::consistency::{
    check_no_insufficient_data_masking, check_provenance_metadata, check_variance_bound,
    consistency_check, get_source_threshold, ConsistencyResult,
};
use agi4::evidence::{
    BoundedFraction, Evidence, MeasurementId, NonNegativeHours, Provenance, SourceId, SourceUrl,
    SourceValue,
};

/// A decimal number in millionths.
fn millionths(x: f64) -> i64 {
    (x * 1_000_000.0).round() as i64
}

fn make_evidence(source: &str, value: f64, is_fraction: bool) -> Evidence {
    Evidence {
        source: SourceId::new(source),
        measurement: MeasurementId::new("test-measurement"),
        value: if is_fraction {
            SourceValue::Fraction(BoundedFraction::new(millionths(value)).unwrap())
        } else {
            SourceValue::Hours(NonNegativeHours::new(millionths(value)).unwrap())
        },
        reliability_percentile: 95,
        provenance: Provenance {
            source_url: SourceUrl::parse("https://example.com").unwrap(),
            fetch_timestamp: chrono::Utc::now().to_rfc3339(),
            source_version: Some("1.0".to_string()),
            raw_value: format!("{}", value),
        },
    }
}

const ALL_PASS: [ConjunctStatus; 4] =
    [ConjunctStatus::Pass, ConjunctStatus::Pass, ConjunctStatus::Pass, ConjunctStatus::Pass];

#[test]
fn rule1_all_pass_with_no_insufficient_data() {
    let statuses = ALL_PASS;
    assert!(check_no_insufficient_data_masking(&statuses).is_ok());
}

#[test]
fn rule1_all_pass_with_insufficient_data_fails() {
    let statuses = [
        ConjunctStatus::Pass,
        ConjunctStatus::Pass,
        ConjunctStatus::Pass,
        ConjunctStatus::InsufficientData,
    ];
    assert!(check_no_insufficient_data_masking(&statuses).is_err());
}

#[test]
fn rule1_not_all_pass_with_insufficient_data_ok() {
    let statuses = [
        ConjunctStatus::Pass,
        ConjunctStatus::Partial,
        ConjunctStatus::Pass,
        ConjunctStatus::InsufficientData,
    ];
    assert!(check_no_insufficient_data_masking(&statuses).is_ok());
}

#[test]
fn rule1_not_all_pass_with_fail_and_insufficient_data_ok() {
    let statuses = [
        ConjunctStatus::Fail,
        ConjunctStatus::Pass,
        ConjunctStatus::Pass,
        ConjunctStatus::InsufficientData,
    ];
    assert!(check_no_insufficient_data_masking(&statuses).is_ok());
}

#[test]
fn rule2_variance_bound_passes_when_not_all_pass() {
    let statuses = [
        ConjunctStatus::Pass,
        ConjunctStatus::Partial,
        ConjunctStatus::Pass,
        ConjunctStatus::Pass,
    ];
    let evidence = vec![make_evidence("arc-agi-2", 0.95, true), make_evidence("arc-agi-3", 0.60, true)];
    assert!(check_variance_bound(&evidence, &statuses).is_ok());
}

#[test]
fn rule2_variance_bound_passes_with_reasonable_margins() {
    let statuses = ALL_PASS;
    // All fraction sources well above their thresholds with balanced margins
    let evidence = vec![
        make_evidence("arc-agi-2", 0.95, true), // margin: 0.95/0.85 ≈ 1.118
        make_evidence("gdpval", 0.92, true),    // margin: 0.92/0.85 ≈ 1.082
        make_evidence("osworld", 0.22, true),   // margin: 0.22/0.20 = 1.1
        make_evidence("re-bench", 0.80, true),  // margin: 0.80/0.60 ≈ 1.333
    ];
    assert!(check_variance_bound(&evidence, &statuses).is_ok());
}

#[test]
fn rule2_variance_bound_fails_with_extreme_imbalance() {
    let statuses = ALL_PASS;
    // One source has tiny margin, another has huge margin
    let evidence = vec![
        make_evidence("arc-agi-2", 0.851, true), // margin: 0.851/0.85 ≈ 1.001
        make_evidence("gdpval", 0.851, true),    // margin: 0.851/0.85 ≈ 1.001
        make_evidence("osworld", 0.851, true),   // margin: 0.851/0.85 ≈ 1.001
        make_evidence("metr-80pct-time-horizon", 8000.0, false), // margin: 8000/168 ≈ 47.6
    ];
    assert!(check_variance_bound(&evidence, &statuses).is_err());
}

#[test]
fn rule2_empty_evidence_passes() {
    let statuses = ALL_PASS;
    let evidence: Vec<Evidence> = vec![];
    assert!(check_variance_bound(&evidence, &statuses).is_ok());
}

#[test]
fn rule2_unknown_sources_passes() {
    let statuses = ALL_PASS;
    let evidence = vec![make_evidence("unknown-source", 0.95, true)];
    // Unknown sources are ignored, so margins is empty, check passes trivially
    assert!(check_variance_bound(&evidence, &statuses).is_ok());
}

#[test]
fn rule2_exactly_half_passes_and_below_half_fails() {
    let statuses = ALL_PASS;
    // margins 0.6/0.6 = 1 and 0.85/0.85 = 1 ... then 0.3/0.6 = 0.5 is exactly half of 1
    let at_half = vec![make_evidence("re-bench", 0.30, true), make_evidence("gdpval", 0.85, true)];
    assert!(check_variance_bound(&at_half, &statuses).is_ok());
    let below_half =
        vec![make_evidence("re-bench", 0.299999, true), make_evidence("gdpval", 0.85, true)];
    assert!(check_variance_bound(&below_half, &statuses).is_err());
}

#[test]
fn rule3_complete_provenance_passes() {
    let evidence = vec![make_evidence("arc-agi-2", 0.95, true), make_evidence("gdpval", 0.90, true)];
    assert!(check_provenance_metadata(&evidence).is_ok());
}

#[test]
fn rule3_empty_evidence_passes() {
    let evidence: Vec<Evidence> = vec![];
    assert!(check_provenance_metadata(&evidence).is_ok());
}

#[test]
fn consistency_check_all_pass_all_rules() {
    let statuses = ALL_PASS;
    let evidence = vec![
        make_evidence("arc-agi-2", 0.90, true), // margin: 0.90/0.85 ≈ 1.06
        make_evidence("gdpval", 0.88, true),    // margin: 0.88/0.85 ≈ 1.04
        make_evidence("osworld", 0.21, true),   // margin: 0.21/0.20 = 1.05
        make_evidence("re-bench", 0.75, true),  // margin: 0.75/0.60 = 1.25
    ];
    let result = consistency_check(&evidence, &statuses);
    assert!(result.passed, "Expected pass but got: {:?}", result);
    assert!(result.failed_rules.is_empty());
}

#[test]
fn consistency_check_rule1_fails() {
    let statuses = [
        ConjunctStatus::Pass,
        ConjunctStatus::Pass,
        ConjunctStatus::Pass,
        ConjunctStatus::InsufficientData,
    ];
    let evidence = vec![make_evidence("arc-agi-2", 0.95, true)];
    let result = consistency_check(&evidence, &statuses);
    assert!(!result.passed);
    assert!(result.failed_rules.contains(&"rule_1_insufficient_data_masking".to_string()));
}

#[test]
fn consistency_check_rule2_fails() {
    let statuses = ALL_PASS;
    let evidence = vec![
        make_evidence("arc-agi-2", 0.99, true),
        make_evidence("gdpval", 0.851, true),
        make_evidence("osworld", 0.90, true),
        make_evidence("metr-80pct-time-horizon", 8000.0, false),
    ];
    let result = consistency_check(&evidence, &statuses);
    assert!(!result.passed);
    assert!(result.failed_rules.contains(&"rule_2_variance_bound".to_string()));
}

#[test]
fn consistency_check_multiple_rules_fail() {
    let statuses = ALL_PASS;
    let evidence = vec![
        make_evidence("arc-agi-2", 0.99, true),
        make_evidence("gdpval", 0.851, true),
        make_evidence("osworld", 0.90, true),
        make_evidence("metr-80pct-time-horizon", 8000.0, false),
    ];
    let result = consistency_check(&evidence, &statuses);
    assert!(!result.passed);
    // Rule 2 (variance bound) should fail due to extreme imbalance
    assert!(result.failed_rules.contains(&"rule_2_variance_bound".to_string()));
}

#[test]
fn consistency_check_partial_or_fail_status_allows_insufficient_data() {
    let statuses = [
        ConjunctStatus::Pass,
        ConjunctStatus::Partial,
        ConjunctStatus::Pass,
        ConjunctStatus::InsufficientData,
    ];
    let evidence = vec![
        make_evidence("arc-agi-2", 0.95, true),
        make_evidence("gdpval", 0.90, true),
        make_evidence("osworld", 0.95, true),
        make_evidence("metr-80pct-time-horizon", 500.0, false),
    ];
    let result = consistency_check(&evidence, &statuses);
    // Rule1 doesn't apply (not all pass), rule2 doesn't apply (not all pass)
    assert!(result.passed);
}

#[test]
fn consistency_check_detail_names_failed_rules() {
    let statuses = ALL_PASS;
    let evidence = vec![
        make_evidence("gdpval", 0.851, true),
        make_evidence("metr-80pct-time-horizon", 8000.0, false),
    ];
    let result = consistency_check(&evidence, &statuses);
    assert_eq!(result.failed_rules, vec!["rule_2_variance_bound".to_string()]);
    assert_eq!(
        result.detail,
        Some("Consistency check failed on: rule_2_variance_bound".to_string())
    );
}

#[test]
fn masking_message_is_exact() {
    let statuses = [
        ConjunctStatus::InsufficientData,
        ConjunctStatus::Pass,
        ConjunctStatus::Pass,
        ConjunctStatus::Pass,
    ];
    assert_eq!(
        check_no_insufficient_data_masking(&statuses).unwrap_err(),
        "One conjunct is insufficient_data while all others pass (masking pattern)"
    );
}

#[test]
fn variance_message_is_exact() {
    let evidence = vec![
        make_evidence("gdpval", 0.851, true),
        make_evidence("metr-80pct-time-horizon", 8000.0, false),
    ];
    assert_eq!(
        check_variance_bound(&evidence, &ALL_PASS).unwrap_err(),
        "Variance bound violated: min_margin < 0.5 * max_margin"
    );
}

#[test]
fn rule3_missing_source_url_fails() {
    let mut e = make_evidence("gdpval", 0.9, true);
    // a URL whose serialization is empty cannot be parsed; a record read
    // from elsewhere may still carry one, so the rule is checked directly
    e.provenance.source_url = SourceUrl::fixed("");
    let evidence = vec![make_evidence("arc-agi-2", 0.95, true), e];
    assert_eq!(
        check_provenance_metadata(&evidence).unwrap_err(),
        "Provenance metadata incomplete for: gdpval (missing: source_url)"
    );
    let result = consistency_check(&evidence, &ALL_PASS);
    assert!(result.failed_rules.contains(&"rule_3_provenance_metadata".to_string()));
}

#[test]
fn source_thresholds_table() {
    assert_eq!(get_source_threshold("arc-agi-3"), Some(vec![(0, 500_000, Some(50_000)), (2, 500_000, Some(50_000))]));
    assert_eq!(get_source_threshold("gdpval-aa"), Some(vec![(1, 850_000, None)]));
    assert_eq!(
        get_source_threshold("metr-80pct-time-horizon"),
        Some(vec![(3, 168_000_000, Some(8_000_000))])
    );
    assert_eq!(get_source_threshold("osworld"), Some(vec![(2, 200_000, Some(30_000))]));
    assert_eq!(get_source_threshold("webarena"), Some(vec![(2, 200_000, Some(50_000))]));
    assert_eq!(get_source_threshold("aries"), Some(vec![(2, 600_000, Some(300_000))]));
    assert_eq!(get_source_threshold("nes"), None);
    assert_eq!(get_source_threshold("unknown"), None);
}

#[test]
fn consistency_result_constructors() {
    let p = ConsistencyResult::pass();
    assert!(p.passed);
    assert!(p.failed_rules.is_empty());
    assert!(p.detail.is_none());
    let f = ConsistencyResult::fail(vec!["rule_1_insufficient_data_masking"], "why".to_string());
    assert!(!f.passed);
    assert_eq!(f.failed_rules, vec!["rule_1_insufficient_data_masking".to_string()]);
    assert_eq!(f.detail, Some("why".to_string()));
}

#[test]
fn rule3_missing_source_version_fails() {
    let mut e = make_evidence("hle", 0.9, true);
    e.provenance.source_version = None;
    let evidence = vec![make_evidence("arc-agi-2", 0.95, true), e];
    assert_eq!(
        check_provenance_metadata(&evidence).unwrap_err(),
        "Provenance metadata incomplete for: hle (missing: source_version)"
    );
    let mut both = make_evidence("rli", 0.7, true);
    both.provenance.source_version = None;
    both.provenance.source_url = SourceUrl::fixed("");
    assert_eq!(
        check_provenance_metadata(&[both]).unwrap_err(),
        "Provenance metadata incomplete for: rli (missing: source_url, source_version)"
    );
}

#[test]
fn consistency_check_without_evidence_says_skipped() {
    let statuses = [ConjunctStatus::InsufficientData; 4];
    let evidence: Vec<Evidence> = vec![];
    let result = consistency_check(&evidence, &statuses);
    assert!(result.passed);
    assert!(result.failed_rules.is_empty());
    assert_eq!(
        result.detail,
        Some("No evidence provided; consistency check skipped".to_string())
    );
    // with evidence, a pass carries no detail
    let result = consistency_check(&[make_evidence("hle", 0.9, true)], &statuses);
    assert!(result.passed);
    assert_eq!(result.detail, None);
}

#[test]
fn consistency_check_failed_rules_are_exact() {
    let statuses = [
        ConjunctStatus::Pass,
        ConjunctStatus::Pass,
        ConjunctStatus::Pass,
        ConjunctStatus::InsufficientData,
    ];
    let result = consistency_check(&[make_evidence("arc-agi-2", 0.95, true)], &statuses);
    assert_eq!(result.failed_rules, vec!["rule_1_insufficient_data_masking".to_string()]);
    let evidence = vec![
        make_evidence("arc-agi-2", 0.99, true),
        make_evidence("gdpval", 0.851, true),
        make_evidence("osworld", 0.90, true),
        make_evidence("metr-80pct-time-horizon", 8000.0, false),
    ];
    let result = consistency_check(&evidence, &ALL_PASS);
    assert_eq!(result.failed_rules, vec!["rule_2_variance_bound".to_string()]);
    assert_eq!(
        result.detail,
        Some("Consistency check failed on: rule_2_variance_bound".to_string())
    );
}

#[test]
fn every_canonical_source_but_nes_has_thresholds() {
    for id in agi4::sources::all_unique_sources() {
        let t = get_source_threshold(id);
        assert_eq!(t.is_some(), *id != "nes", "{}", id);
        if let Some(entries) = t {
            assert!(!entries.is_empty());
            for (_, pass, floor) in entries {
                assert!(pass > 0);
                if let Some(f) = floor {
                    assert!(f < pass);
                }
            }
        }
    }
}
