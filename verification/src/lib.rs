//! Verified core of the AGI/4 attestation runner.

pub mod conjunct;
pub mod text;
pub mod evidence;
pub mod sources;
pub mod threshold;
pub mod evaluators;
pub mod consistency;
pub mod verdict;
pub mod decimal;
pub mod adapters;
pub mod fetchers;
pub mod schema;
pub mod attest;
pub mod report;
pub mod fixtures;
pub mod laws;

pub use attest::{attest, attest_live, SPEC_VERSION, VERSION};
pub use conjunct::{Conjunct, ConjunctStatus};
pub use consistency::{consistency_check, ConsistencyResult};
pub use evaluators::{
    evaluate_autonomous_agency, evaluate_economic_substitutability,
    evaluate_environmental_transfer, evaluate_generality,
};
pub use evidence::{
    BoundedFraction, Evidence, MeasurementId, NonNegativeHours, Provenance, SourceId, SourceUrl,
    SourceValue,
};
pub use report::render;
pub use schema::{
    ConjunctReport, ConjunctsOutput, ConsistencyCheckOutput, EvidenceReport, MarginReport,
    ModelMetadata, ProvenanceReport, VerdictOutput,
};
pub use verdict::{verdict, Verdict};
pub use report::render as render_verdict;
