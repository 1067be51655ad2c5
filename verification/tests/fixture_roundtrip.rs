//! Round trips from frozen upstream records: fetch from the in-memory
//! fetcher, read the JSON record, convert it to evidence.
//!
//! The frozen fixture files are small JSON records; their text is held here.

use agi4::adapters::arc_prize::{ArcAgi2Score, ArcAgi3Score, ArcPrizeAdapter, ArcPrizeRaw};
use agi4::adapters::hle::{HleAdapter, HleRaw};
use agi4::adapters::metr::{MetrAdapter, MetrRaw};
use agi4::adapters::ModelId;
use agi4::evidence::SourceValue;
use agi4::fetchers::InMemoryFetcher;

const METR_FIXTURE: &str = r#"{"value": 168.0}"#;
const ARC_PRIZE_FIXTURE: &str =
    r#"{"arc_agi_2": {"pass_rate": 0.87}, "arc_agi_3": {"pass_rate": 0.52}}"#;
const HLE_FIXTURE: &str = r#"{"overall_accuracy": 0.82}"#;

/// A JSON number in millionths.
fn json_millionths(v: &serde_json::Value) -> i64 {
    (v.as_f64().expect("number") * 1_000_000.0).round() as i64
}

fn read_json(text: &str) -> serde_json::Value {
    serde_json::from_str(text).expect("should parse fixture")
}

fn metr_raw(text: &str) -> MetrRaw {
    MetrRaw { value: json_millionths(&read_json(text)["value"]) }
}

fn arc_raw(text: &str) -> ArcPrizeRaw {
    let v = read_json(text);
    ArcPrizeRaw {
        arc_agi_2: ArcAgi2Score { pass_rate: json_millionths(&v["arc_agi_2"]["pass_rate"]) },
        arc_agi_3: ArcAgi3Score { pass_rate: json_millionths(&v["arc_agi_3"]["pass_rate"]) },
    }
}

fn hle_raw(text: &str) -> HleRaw {
    HleRaw { overall_accuracy: json_millionths(&read_json(text)["overall_accuracy"]) }
}

#[test]
fn metr_fixture_roundtrip() {
    let adapter = MetrAdapter::default();

    // Set up fetcher with fixture
    let mut fetcher = InMemoryFetcher::new();
    fetcher.insert(adapter.endpoint().as_str(), METR_FIXTURE);

    // Simulate fetch: in real usage, the fetcher would provide the JSON
    let fetched_data = fetcher.fetch(adapter.endpoint()).expect("fixture should be available");

    // Read the record
    let raw = metr_raw(&fetched_data);
    assert_eq!(raw.value, 168_000_000);

    // Convert: MetrRaw → Vec<Evidence>
    let model = ModelId::new("example-model-v1");
    let evidence_vec = adapter.to_evidence(raw, &model).expect("should convert to evidence");
    assert_eq!(evidence_vec.len(), 1, "METR produces one evidence entry");

    let evidence = &evidence_vec[0];
    assert_eq!(evidence.source.as_str(), "metr-80pct-time-horizon", "source ID should match");
    assert_eq!(
        evidence.measurement.as_str(),
        "80pct-time-horizon",
        "measurement should be time-horizon"
    );
    assert_eq!(evidence.reliability_percentile, 80, "reliability percentile is 80 by definition");
    match &evidence.value {
        SourceValue::Hours(hours) => {
            assert_eq!(hours.value(), 168_000_000, "value should be 168 hours");
        }
        _ => panic!("expected Hours variant"),
    }

    // Verify provenance
    assert!(!evidence.provenance.raw_value.is_empty());
    assert!(evidence.provenance.source_version.is_some());
    assert!(evidence.provenance.source_url.as_str().contains("metr.org"));
}

#[test]
fn metr_fixture_multiple_models() {
    let adapter = MetrAdapter::default();
    let models = vec![ModelId::new("model-a"), ModelId::new("model-b"), ModelId::new("model-c")];
    for model in models {
        let evidence_vec =
            adapter.to_evidence(metr_raw(METR_FIXTURE), &model).expect("should convert for all models");
        assert_eq!(evidence_vec.len(), 1);
        match &evidence_vec[0].value {
            SourceValue::Hours(hours) => assert_eq!(hours.value(), 168_000_000),
            _ => panic!("expected Hours"),
        }
    }
}

#[test]
fn arc_prize_fixture_roundtrip() {
    let adapter = ArcPrizeAdapter::default();

    let mut fetcher = InMemoryFetcher::new();
    fetcher.insert(adapter.endpoint().as_str(), ARC_PRIZE_FIXTURE);
    let fetched_data = fetcher.fetch(adapter.endpoint()).expect("fixture should be available");

    let raw = arc_raw(&fetched_data);
    assert_eq!(raw.arc_agi_2.pass_rate, 870_000);
    assert_eq!(raw.arc_agi_3.pass_rate, 520_000);

    let model = ModelId::new("example-model-v1");
    let evidence_vec = adapter.to_evidence(raw, &model).expect("should convert to evidence");
    assert_eq!(evidence_vec.len(), 2, "ARC Prize adapter produces two evidence entries");

    let arc_agi_2_ev = evidence_vec
        .iter()
        .find(|e| e.source.as_str() == "arc-agi-2")
        .expect("should have arc-agi-2 evidence");
    assert_eq!(arc_agi_2_ev.measurement.as_str(), "pass@1-private-split");
    assert_eq!(arc_agi_2_ev.reliability_percentile, 95);
    match &arc_agi_2_ev.value {
        SourceValue::Fraction(frac) => assert_eq!(frac.value(), 870_000, "ARC-AGI-2 value should be 0.87"),
        _ => panic!("expected Fraction variant for ARC-AGI-2"),
    }

    let arc_agi_3_ev = evidence_vec
        .iter()
        .find(|e| e.source.as_str() == "arc-agi-3")
        .expect("should have arc-agi-3 evidence");
    assert_eq!(arc_agi_3_ev.measurement.as_str(), "pass@1-interactive-private");
    assert_eq!(arc_agi_3_ev.reliability_percentile, 80);
    match &arc_agi_3_ev.value {
        SourceValue::Fraction(frac) => assert_eq!(frac.value(), 520_000, "ARC-AGI-3 value should be 0.52"),
        _ => panic!("expected Fraction variant for ARC-AGI-3"),
    }

    for evidence in &evidence_vec {
        assert!(!evidence.provenance.raw_value.is_empty());
        assert!(evidence.provenance.source_version.is_some());
        assert!(evidence.provenance.source_url.as_str().contains("arc"));
    }
}

#[test]
fn arc_prize_fixture_multiple_models() {
    let adapter = ArcPrizeAdapter::default();
    let models = vec![ModelId::new("model-a"), ModelId::new("model-b"), ModelId::new("model-c")];
    for model in models {
        let evidence_vec = adapter
            .to_evidence(arc_raw(ARC_PRIZE_FIXTURE), &model)
            .expect("should convert for all models");
        assert_eq!(evidence_vec.len(), 2);
        let arc_agi_2_ev = evidence_vec.iter().find(|e| e.source.as_str() == "arc-agi-2").unwrap();
        match &arc_agi_2_ev.value {
            SourceValue::Fraction(frac) => assert_eq!(frac.value(), 870_000),
            _ => panic!("expected Fraction"),
        }
    }
}

#[test]
fn arc_prize_fixture_out_of_bounds() {
    let adapter = ArcPrizeAdapter::default();
    let out_of_bounds_json = r#"{"arc_agi_2": {"pass_rate": 1.5}, "arc_agi_3": {"pass_rate": 0.5}}"#;
    // Reading succeeds (it's valid JSON)
    let raw = arc_raw(out_of_bounds_json);
    // But to_evidence should fail due to bounds validation
    let model = ModelId::new("test-model");
    let evidence_result = adapter.to_evidence(raw, &model);
    assert!(evidence_result.is_err());
}

#[test]
fn hle_fixture_roundtrip() {
    let adapter = HleAdapter::default();

    let mut fetcher = InMemoryFetcher::new();
    fetcher.insert(adapter.endpoint().as_str(), HLE_FIXTURE);
    let fetched_data = fetcher.fetch(adapter.endpoint()).expect("fixture should be available");

    let raw = hle_raw(&fetched_data);
    assert_eq!(raw.overall_accuracy, 820_000);

    let model = ModelId::new("example-model-v1");
    let evidence_vec = adapter.to_evidence(raw, &model).expect("should convert to evidence");
    assert_eq!(evidence_vec.len(), 1, "HLE adapter produces one evidence entry");

    let evidence = &evidence_vec[0];
    assert_eq!(evidence.source.as_str(), "hle", "source ID should be hle");
    assert_eq!(evidence.measurement.as_str(), "overall-accuracy");
    assert_eq!(evidence.reliability_percentile, 95);
    match &evidence.value {
        SourceValue::Fraction(frac) => assert_eq!(frac.value(), 820_000, "value should be 0.82"),
        _ => panic!("expected Fraction value"),
    }

    assert!(!evidence.provenance.raw_value.is_empty());
    assert!(evidence.provenance.source_version.is_some());
    assert!(
        evidence.provenance.source_url.as_str().contains("hle")
            || evidence.provenance.source_url.as_str().contains("cais")
    );
}

#[test]
fn hle_fixture_multiple_models() {
    let adapter = HleAdapter::default();
    let models = vec![ModelId::new("model-a"), ModelId::new("model-b"), ModelId::new("model-c")];
    for model in models {
        let evidence_vec =
            adapter.to_evidence(hle_raw(HLE_FIXTURE), &model).expect("should convert for all models");
        assert_eq!(evidence_vec.len(), 1);
        match &evidence_vec[0].value {
            SourceValue::Fraction(frac) => assert_eq!(frac.value(), 820_000),
            _ => panic!("expected Fraction"),
        }
    }
}
