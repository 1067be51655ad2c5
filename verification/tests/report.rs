//! Tests of the Markdown report.

use agi4::report::render;
use agi4::schema::{
    ConjunctReport, ConjunctsOutput, ConsistencyCheckOutput, EvidenceReport, MarginReport,
    ModelMetadata, ProvenanceReport, VerdictOutput,
};

fn create_test_verdict() -> VerdictOutput {
    VerdictOutput {
        spec_version: "0.1.0".to_string(),
        runner_version: "0.1.0".to_string(),
        run_timestamp: "2026-05-26T00:00:00Z".to_string(),
        model: ModelMetadata {
            id: "test-model".to_string(),
            provider: Some("test-lab".to_string()),
            version_or_date: Some("2026-05-26".to_string()),
        },
        conjuncts: ConjunctsOutput {
            generality: ConjunctReport {
                status: "pass".to_string(),
                evidence: vec![],
                margins: None,
            },
            economic_substitutability: ConjunctReport {
                status: "pass".to_string(),
                evidence: vec![],
                margins: None,
            },
            environmental_transfer: ConjunctReport {
                status: "partial".to_string(),
                evidence: vec![],
                margins: None,
            },
            autonomous_agency: ConjunctReport {
                status: "pass".to_string(),
                evidence: vec![],
                margins: None,
            },
        },
        consistency_check: ConsistencyCheckOutput {
            status: "pass".to_string(),
            failed_rules: vec![],
            detail: None,
        },
        verdict: "not_attested".to_string(),
        verdict_reasons: vec!["environmental_transfer".to_string()],
        known_gaps_acknowledged: vec!["nes_underspecified".to_string()],
    }
}

#[test]
fn render_produces_markdown() {
    let verdict = create_test_verdict();
    let markdown = render(&verdict);

    assert!(!markdown.is_empty());
    assert!(markdown.contains("# AGI/4 Attestation Verdict"));
    assert!(markdown.contains("test-model"));
}

#[test]
fn render_includes_metadata() {
    let verdict = create_test_verdict();
    let markdown = render(&verdict);

    assert!(markdown.contains("## Evaluation Metadata"));
    assert!(markdown.contains("**Model:** test-model"));
    assert!(markdown.contains("**Provider:** test-lab"));
    assert!(markdown.contains("**Version/Date:** 2026-05-26"));
    assert!(markdown.contains("**Specification Version:** 0.1.0"));
    assert!(markdown.contains("**Runner Version:** 0.1.0"));
    assert!(markdown.contains("**Run Timestamp:** 2026-05-26T00:00:00Z"));
}

#[test]
fn render_includes_conjuncts() {
    let verdict = create_test_verdict();
    let markdown = render(&verdict);

    assert!(markdown.contains("## Per-Conjunct Evaluation"));
    assert!(markdown.contains("### Generality"));
    assert!(markdown.contains("### Economic Substitutability"));
    assert!(markdown.contains("### Environmental Transfer"));
    assert!(markdown.contains("### Autonomous Agency"));
}

#[test]
fn render_includes_conjunct_status() {
    let verdict = create_test_verdict();
    let markdown = render(&verdict);

    assert!(markdown.contains("`pass`"));
    assert!(markdown.contains("`partial`"));
}

#[test]
fn render_includes_consistency_check() {
    let verdict = create_test_verdict();
    let markdown = render(&verdict);

    assert!(markdown.contains("## Consistency Check"));
    assert!(markdown.contains("**Status:**"));
}

#[test]
fn render_includes_verdict_summary() {
    let verdict = create_test_verdict();
    let markdown = render(&verdict);

    assert!(markdown.contains("## Verdict"));
    assert!(markdown.contains("**Result:**"));
    assert!(markdown.contains("NOT_ATTESTED"));
}

#[test]
fn render_includes_verdict_reasons() {
    let verdict = create_test_verdict();
    let markdown = render(&verdict);

    assert!(markdown.contains("**Reasons:**"));
    assert!(markdown.contains("environmental_transfer"));
}

#[test]
fn render_includes_known_gaps() {
    let verdict = create_test_verdict();
    let markdown = render(&verdict);

    assert!(markdown.contains("## Known Gaps Acknowledged"));
    assert!(markdown.contains("nes_underspecified"));
}

#[test]
fn render_snapshot_test() {
    let verdict = create_test_verdict();
    let markdown = render(&verdict);

    let expected = r#"# AGI/4 Attestation Verdict

## Evaluation Metadata

**Model:** test-model
**Provider:** test-lab
**Version/Date:** 2026-05-26
**Specification Version:** 0.1.0
**Runner Version:** 0.1.0
**Run Timestamp:** 2026-05-26T00:00:00Z

## Per-Conjunct Evaluation

### Generality

**Status:** `pass`

### Economic Substitutability

**Status:** `pass`

### Environmental Transfer

**Status:** `partial`

### Autonomous Agency

**Status:** `pass`

## Consistency Check

**Status:** `pass`

## Verdict

**Result:** `NOT_ATTESTED`

**Reasons:**

- environmental_transfer

## Known Gaps Acknowledged

- nes_underspecified

"#;

    assert_eq!(markdown.trim(), expected.trim());
}

fn evidence_report(source: &str, value: &str, threshold: Option<i64>, passes: Option<bool>) -> EvidenceReport {
    EvidenceReport {
        source: source.to_string(),
        measurement: "accuracy".to_string(),
        value: value.to_string(),
        threshold,
        floor: None,
        passes_threshold: passes,
        below_floor: None,
        reliability_percentile: 95,
        provenance: ProvenanceReport {
            source_url: "https://example.com/".to_string(),
            fetch_timestamp: "2026-05-26T00:00:00Z".to_string(),
            source_version: None,
            raw_value: value.to_string(),
        },
    }
}

#[test]
fn render_evidence_table_and_provenance() {
    let mut verdict = create_test_verdict();
    verdict.conjuncts.generality.evidence = vec![
        evidence_report("hle", "0.82", Some(800_000), Some(true)),
        evidence_report("gpqa-diamond", "0.5", Some(900_000), Some(false)),
        evidence_report("nes", "0.1", None, None),
    ];
    let markdown = render(&verdict);
    assert!(markdown.contains(
        "#### Evidence\n\n| Source | Measurement | Value | Threshold | Passes |\n|--------|-------------|-------|-----------|--------|\n| hle | accuracy | 0.82 | 0.80 | ✓ |\n| gpqa-diamond | accuracy | 0.5 | 0.90 | ✗ |\n| nes | accuracy | 0.1 | — | — |\n\n"
    ));
    assert!(markdown.contains(
        "#### Evidence Provenance\n\n**hle:** [accuracy](https://example.com/)\n**gpqa-diamond:** [accuracy](https://example.com/)\n**nes:** [accuracy](https://example.com/)\n\n"
    ));
}

#[test]
fn render_margins_two_decimals() {
    let mut verdict = create_test_verdict();
    verdict.conjuncts.autonomous_agency.margins = Some(MarginReport { min: 1_004_999, max: 47_619_048 });
    let markdown = render(&verdict);
    assert!(markdown.contains("#### Margins\n\n- **Min:** 1.00\n- **Max:** 47.62\n\n"));
}

#[test]
fn render_failed_rules_and_detail() {
    let mut verdict = create_test_verdict();
    verdict.consistency_check = ConsistencyCheckOutput {
        status: "fail".to_string(),
        failed_rules: vec!["rule_2_variance_bound".to_string()],
        detail: Some("Consistency check failed on: rule_2_variance_bound".to_string()),
    };
    let markdown = render(&verdict);
    assert!(markdown.contains(
        "## Consistency Check\n\n**Status:** `fail`\n\n**Failed Rules:**\n\n- rule_2_variance_bound\n\n**Detail:** Consistency check failed on: rule_2_variance_bound\n\n"
    ));
}

#[test]
fn render_without_optional_metadata() {
    let mut verdict = create_test_verdict();
    verdict.model.provider = None;
    verdict.model.version_or_date = None;
    verdict.known_gaps_acknowledged = vec![];
    let markdown = render(&verdict);
    assert!(!markdown.contains("**Provider:**"));
    assert!(!markdown.contains("**Version/Date:**"));
    assert!(markdown.contains("**Model:** test-model\n**Specification Version:** 0.1.0\n"));
}

#[test]
fn render_thresholds_round_ties_to_even_and_keep_sign() {
    let mut verdict = create_test_verdict();
    verdict.conjuncts.generality.evidence = vec![
        evidence_report("hle", "0.2", Some(125_000), Some(true)),
        evidence_report("gpqa-diamond", "0.2", Some(-1_000), Some(true)),
    ];
    let markdown = render(&verdict);
    assert!(markdown.contains("| hle | accuracy | 0.2 | 0.12 | ✓ |\n"));
    assert!(markdown.contains("| gpqa-diamond | accuracy | 0.2 | -0.00 | ✓ |\n"));
}
