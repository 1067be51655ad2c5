//! Tests of the RE-Bench adapter.

use agi4::adapters::re_bench::{ReBenchAdapter, ReBenchError, ReBenchRaw};
use agi4::adapters::ModelId;
use agi4::evidence::{SourceUrl, SourceValue};

/// A decimal fraction in millionths, as the adapters take it.
fn millionths(x: f64) -> i64 {
    (x * 1_000_000.0).round() as i64
}

/// A JSON number in millionths.
fn json_millionths(v: &serde_json::Value) -> i64 {
    millionths(v.as_f64().expect("number"))
}

#[test]
fn re_bench_adapter_new() {
    let adapter = ReBenchAdapter::new().expect("should create adapter");
    assert_eq!(adapter.id().as_str(), "re-bench");
    assert!(adapter.endpoint().as_str().contains("metr"));
}

#[test]
fn re_bench_adapter_default() {
    let adapter = ReBenchAdapter::default();
    assert_eq!(adapter.id().as_str(), "re-bench");
}

#[test]
fn re_bench_adapter_with_custom_endpoint() {
    let custom_url = SourceUrl::parse("http://localhost:8080/re-bench").unwrap();
    let adapter = ReBenchAdapter::with_endpoint(custom_url.clone());
    assert_eq!(adapter.endpoint(), &custom_url);
}

#[test]
fn re_bench_to_evidence_valid() {
    let adapter = ReBenchAdapter::default();
    let raw = ReBenchRaw { task_success_rate: millionths(0.68) };
    let model = ModelId::new("test-model");
    let result = adapter.to_evidence(raw, &model);

    assert!(result.is_ok());
    let evidence_vec = result.unwrap();
    assert_eq!(evidence_vec.len(), 1, "RE-Bench produces one evidence entry");

    let evidence = &evidence_vec[0];
    assert_eq!(evidence.source.as_str(), "re-bench");
    assert_eq!(evidence.measurement.as_str(), "task-success-rate");
    assert_eq!(evidence.reliability_percentile, 80);
    match &evidence.value {
        SourceValue::Fraction(frac) => {
            assert_eq!(frac.value(), millionths(0.68) as u64);
        }
        _ => panic!("expected Fraction value"),
    }
}

#[test]
fn re_bench_to_evidence_zero_rate() {
    let adapter = ReBenchAdapter::default();
    let raw = ReBenchRaw { task_success_rate: millionths(0.0) };
    let model = ModelId::new("test-model");
    let result = adapter.to_evidence(raw, &model);
    assert!(result.is_ok());
    let evidence_vec = result.unwrap();
    assert_eq!(evidence_vec.len(), 1);
}

#[test]
fn re_bench_to_evidence_maximum_rate() {
    let adapter = ReBenchAdapter::default();
    let raw = ReBenchRaw { task_success_rate: millionths(1.0) };
    let model = ModelId::new("test-model");
    let result = adapter.to_evidence(raw, &model);
    assert!(result.is_ok());
    let evidence_vec = result.unwrap();
    assert_eq!(evidence_vec.len(), 1);
}

#[test]
fn re_bench_to_evidence_out_of_bounds_high() {
    let adapter = ReBenchAdapter::default();
    let raw = ReBenchRaw { task_success_rate: millionths(1.5) };
    let model = ModelId::new("test-model");
    let result = adapter.to_evidence(raw, &model);
    assert!(result.is_err());
    match result {
        Err(ReBenchError::ValidationError(_)) => {}
        _ => panic!("expected ValidationError"),
    }
}

#[test]
fn re_bench_to_evidence_out_of_bounds_low() {
    let adapter = ReBenchAdapter::default();
    let raw = ReBenchRaw { task_success_rate: millionths(-0.1) };
    let model = ModelId::new("test-model");
    let result = adapter.to_evidence(raw, &model);
    assert!(result.is_err());
    match result {
        Err(ReBenchError::ValidationError(_)) => {}
        _ => panic!("expected ValidationError"),
    }
}

#[test]
fn re_bench_to_evidence_provenance() {
    let adapter = ReBenchAdapter::default();
    let raw = ReBenchRaw { task_success_rate: millionths(0.68) };
    let model = ModelId::new("test-model");
    let evidence_vec = adapter.to_evidence(raw, &model).unwrap();
    let evidence = &evidence_vec[0];

    assert!(evidence.provenance.source_url.as_str().contains("metr"));
    assert!(evidence.provenance.source_version.is_some());
    assert_eq!(evidence.provenance.source_version.as_ref().unwrap(), "re-bench-v1");
    assert_eq!(evidence.provenance.raw_value, "0.68");
}

#[test]
fn re_bench_round_trip() {
    let adapter = ReBenchAdapter::default();
    let raw_json = r#"{"task_success_rate": 0.68}"#;
    let model = ModelId::new("test-model");

    // Parse JSON
    let parsed: serde_json::Value = serde_json::from_str(raw_json).expect("should parse");
    let raw = ReBenchRaw { task_success_rate: json_millionths(&parsed["task_success_rate"]) };

    // Convert to evidence
    let evidence_vec = adapter.to_evidence(raw, &model).expect("should convert");

    // Verify
    assert_eq!(evidence_vec.len(), 1);
    let evidence = &evidence_vec[0];
    assert_eq!(evidence.source.as_str(), "re-bench");
    assert_eq!(evidence.reliability_percentile, 80);
    match &evidence.value {
        SourceValue::Fraction(frac) => assert_eq!(frac.value(), millionths(0.68) as u64),
        _ => panic!("expected Fraction"),
    }
}

#[test]
fn re_bench_error_display() {
    let err1 = ReBenchError::ParseError("test error".to_string());
    assert!(err1.to_string().contains("parse error"));

    let err2 = ReBenchError::ValidationError("invalid value".to_string());
    assert!(err2.to_string().contains("validation error"));
}
