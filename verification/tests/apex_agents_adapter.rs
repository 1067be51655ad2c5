//! Tests of the APEX-Agents adapter.

use agi4::adapters::apex_agents::{ApexAgentsAdapter, ApexAgentsError, ApexAgentsRaw};
use agi4::adapters::ModelId;
use agi4::evidence::{SourceUrl, SourceValue};

/// A decimal fraction in millionths, as the adapters take it.
fn millionths(x: f64) -> i64 {
    (x * 1_000_000.0).round() as i64
}

/// A JSON number in millionths.
fn json_millionths(v: &serde_json::Value) -> i64 {
    millionths(v.as_f64().expect("number"))
}

#[test]
fn apex_agents_adapter_new() {
    let adapter = ApexAgentsAdapter::new().expect("should create adapter");
    assert_eq!(adapter.id().as_str(), "apex-agents");
    assert!(adapter.endpoint().as_str().contains("apexagents"));
}

#[test]
fn apex_agents_adapter_default() {
    let adapter = ApexAgentsAdapter::default();
    assert_eq!(adapter.id().as_str(), "apex-agents");
}

#[test]
fn apex_agents_adapter_with_custom_endpoint() {
    let custom_url = SourceUrl::parse("http://localhost:8080/apex").unwrap();
    let adapter = ApexAgentsAdapter::with_endpoint(custom_url.clone());
    assert_eq!(adapter.endpoint(), &custom_url);
}

#[test]
fn apex_agents_to_evidence_valid() {
    let adapter = ApexAgentsAdapter::default();
    let raw = ApexAgentsRaw { task_completion_rate: millionths(0.78) };
    let model = ModelId::new("test-model");
    let result = adapter.to_evidence(raw, &model);

    assert!(result.is_ok());
    let evidence_vec = result.unwrap();
    assert_eq!(evidence_vec.len(), 1, "APEX-Agents produces one evidence entry");

    let evidence = &evidence_vec[0];
    assert_eq!(evidence.source.as_str(), "apex-agents");
    assert_eq!(evidence.measurement.as_str(), "task-completion-rate");
    assert_eq!(evidence.reliability_percentile, 95);
    match &evidence.value {
        SourceValue::Fraction(frac) => {
            assert_eq!(frac.value(), millionths(0.78) as u64);
        }
        _ => panic!("expected Fraction value"),
    }
}

#[test]
fn apex_agents_to_evidence_zero_rate() {
    let adapter = ApexAgentsAdapter::default();
    let raw = ApexAgentsRaw { task_completion_rate: millionths(0.0) };
    let model = ModelId::new("test-model");
    let result = adapter.to_evidence(raw, &model);
    assert!(result.is_ok());
    let evidence_vec = result.unwrap();
    assert_eq!(evidence_vec.len(), 1);
}

#[test]
fn apex_agents_to_evidence_maximum_rate() {
    let adapter = ApexAgentsAdapter::default();
    let raw = ApexAgentsRaw { task_completion_rate: millionths(1.0) };
    let model = ModelId::new("test-model");
    let result = adapter.to_evidence(raw, &model);
    assert!(result.is_ok());
    let evidence_vec = result.unwrap();
    assert_eq!(evidence_vec.len(), 1);
}

#[test]
fn apex_agents_to_evidence_out_of_bounds_high() {
    let adapter = ApexAgentsAdapter::default();
    let raw = ApexAgentsRaw { task_completion_rate: millionths(1.5) };
    let model = ModelId::new("test-model");
    let result = adapter.to_evidence(raw, &model);
    assert!(result.is_err());
    match result {
        Err(ApexAgentsError::ValidationError(_)) => {}
        _ => panic!("expected ValidationError"),
    }
}

#[test]
fn apex_agents_to_evidence_out_of_bounds_low() {
    let adapter = ApexAgentsAdapter::default();
    let raw = ApexAgentsRaw { task_completion_rate: millionths(-0.1) };
    let model = ModelId::new("test-model");
    let result = adapter.to_evidence(raw, &model);
    assert!(result.is_err());
    match result {
        Err(ApexAgentsError::ValidationError(_)) => {}
        _ => panic!("expected ValidationError"),
    }
}

#[test]
fn apex_agents_to_evidence_provenance() {
    let adapter = ApexAgentsAdapter::default();
    let raw = ApexAgentsRaw { task_completion_rate: millionths(0.78) };
    let model = ModelId::new("test-model");
    let evidence_vec = adapter.to_evidence(raw, &model).unwrap();
    let evidence = &evidence_vec[0];

    assert!(evidence.provenance.source_url.as_str().contains("apexagents"));
    assert!(evidence.provenance.source_version.is_some());
    assert_eq!(evidence.provenance.source_version.as_ref().unwrap(), "apex-agents-v1");
    assert_eq!(evidence.provenance.raw_value, "0.78");
}

#[test]
fn apex_agents_round_trip() {
    let adapter = ApexAgentsAdapter::default();
    let raw_json = r#"{"task_completion_rate": 0.78}"#;
    let model = ModelId::new("test-model");

    // Parse JSON
    let parsed: serde_json::Value = serde_json::from_str(raw_json).expect("should parse");
    let raw = ApexAgentsRaw { task_completion_rate: json_millionths(&parsed["task_completion_rate"]) };

    // Convert to evidence
    let evidence_vec = adapter.to_evidence(raw, &model).expect("should convert");

    // Verify
    assert_eq!(evidence_vec.len(), 1);
    let evidence = &evidence_vec[0];
    assert_eq!(evidence.source.as_str(), "apex-agents");
    assert_eq!(evidence.reliability_percentile, 95);
    match &evidence.value {
        SourceValue::Fraction(frac) => assert_eq!(frac.value(), millionths(0.78) as u64),
        _ => panic!("expected Fraction"),
    }
}

#[test]
fn apex_agents_error_display() {
    let err1 = ApexAgentsError::ParseError("test error".to_string());
    assert!(err1.to_string().contains("parse error"));

    let err2 = ApexAgentsError::ValidationError("invalid value".to_string());
    assert!(err2.to_string().contains("validation error"));
}
