//! Tests of the METR time-horizon adapter.

use agi4::adapters::metr::{MetrAdapter, MetrError, MetrRaw};
use agi4::adapters::ModelId;
use agi4::evidence::{SourceUrl, SourceValue};

/// A decimal number of hours in millionths of an hour, as the adapter takes it.
fn millionths(x: f64) -> i64 {
    (x * 1_000_000.0).round() as i64
}

#[test]
fn metr_adapter_new() {
    let adapter = MetrAdapter::new().expect("should create adapter");
    assert_eq!(adapter.id().as_str(), "metr-80pct-time-horizon");
    assert!(adapter.endpoint().as_str().contains("metr.org"));
}

#[test]
fn metr_adapter_default() {
    let adapter = MetrAdapter::default();
    assert_eq!(adapter.id().as_str(), "metr-80pct-time-horizon");
}

#[test]
fn metr_adapter_with_custom_endpoint() {
    let custom_url = SourceUrl::parse("http://localhost:8080/metr").unwrap();
    let adapter = MetrAdapter::with_endpoint(custom_url.clone());
    assert_eq!(adapter.endpoint(), &custom_url);
}

#[test]
fn metr_to_evidence_valid() {
    let adapter = MetrAdapter::default();
    let raw = MetrRaw { value: millionths(168.0) };
    let model = ModelId::new("test-model");
    let result = adapter.to_evidence(raw, &model);

    assert!(result.is_ok());
    let evidence_vec = result.unwrap();
    assert_eq!(evidence_vec.len(), 1);

    let evidence = &evidence_vec[0];
    assert_eq!(evidence.source.as_str(), "metr-80pct-time-horizon");
    assert_eq!(evidence.measurement.as_str(), "80pct-time-horizon");
    assert_eq!(evidence.reliability_percentile, 80);
    match &evidence.value {
        SourceValue::Hours(hours) => {
            assert_eq!(hours.value(), 168_000_000);
        }
        _ => panic!("expected Hours value"),
    }
}

#[test]
fn metr_to_evidence_zero_hours() {
    let adapter = MetrAdapter::default();
    let raw = MetrRaw { value: millionths(0.0) };
    let model = ModelId::new("test-model");
    let result = adapter.to_evidence(raw, &model);
    assert!(result.is_ok());
    let evidence_vec = result.unwrap();
    assert_eq!(evidence_vec.len(), 1);
}

#[test]
fn metr_to_evidence_negative_hours() {
    let adapter = MetrAdapter::default();
    let raw = MetrRaw { value: millionths(-10.0) };
    let model = ModelId::new("test-model");
    let result = adapter.to_evidence(raw, &model);
    assert!(result.is_err());
    match result {
        Err(MetrError::ValidationError(_)) => {}
        _ => panic!("expected ValidationError"),
    }
}

#[test]
fn metr_to_evidence_large_hours() {
    let adapter = MetrAdapter::default();
    // one month
    let raw = MetrRaw { value: millionths(720.0) };
    let model = ModelId::new("test-model");
    let result = adapter.to_evidence(raw, &model);
    assert!(result.is_ok());
}

#[test]
fn metr_to_evidence_provenance() {
    let adapter = MetrAdapter::default();
    let raw = MetrRaw { value: millionths(168.0) };
    let model = ModelId::new("test-model");
    let evidence_vec = adapter.to_evidence(raw, &model).unwrap();
    let evidence = &evidence_vec[0];

    assert!(evidence.provenance.source_url.as_str().contains("metr.org"));
    assert!(evidence.provenance.source_version.is_some());
    assert_eq!(evidence.provenance.source_version.as_ref().unwrap(), "metr-v1");
    assert_eq!(evidence.provenance.raw_value, "168");
}

#[test]
fn metr_round_trip() {
    let adapter = MetrAdapter::default();
    let raw_json = r#"{"value": 168.0}"#;
    let model = ModelId::new("test-model");

    // Parse JSON
    let parsed: serde_json::Value = serde_json::from_str(raw_json).expect("should parse");
    let metr_raw = MetrRaw { value: millionths(parsed["value"].as_f64().expect("number")) };

    // Convert to evidence
    let evidence_vec = adapter.to_evidence(metr_raw, &model).expect("should convert");

    // Verify
    assert_eq!(evidence_vec.len(), 1);
    let evidence = &evidence_vec[0];
    assert_eq!(evidence.source.as_str(), "metr-80pct-time-horizon");
    assert_eq!(evidence.reliability_percentile, 80);
    match &evidence.value {
        SourceValue::Hours(h) => assert_eq!(h.value(), 168_000_000),
        _ => panic!("expected Hours"),
    }
}

#[test]
fn metr_error_display() {
    let err1 = MetrError::ParseError("test error".to_string());
    assert!(err1.to_string().contains("parse error"));

    let err2 = MetrError::ValidationError("invalid value".to_string());
    assert!(err2.to_string().contains("validation error"));
}

#[test]
fn metr_fractional_hours_raw_value() {
    let adapter = MetrAdapter::default();
    let raw = MetrRaw { value: millionths(7.5) };
    let model = ModelId::new("test-model");
    let evidence_vec = adapter.to_evidence(raw, &model).unwrap();
    assert_eq!(evidence_vec[0].provenance.raw_value, "7.5");
}

#[test]
fn metr_negative_hours_error_message() {
    let adapter = MetrAdapter::default();
    let raw = MetrRaw { value: -1 };
    let model = ModelId::new("test-model");
    match adapter.to_evidence(raw, &model) {
        Err(e) => assert_eq!(
            e.to_string(),
            "METR validation error: invalid hours value: hours must be non-negative"
        ),
        Ok(_) => panic!("expected an error"),
    }
}
