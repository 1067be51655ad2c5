//! Output types of a verdict.
//!
//! These are the values the runner emits as JSON; the JSON encoding itself is
//! done outside the library. Threshold, floor and margin values are held in
//! millionths; the measurement value of an evidence report is held as its
//! JSON text.

use vstd::prelude::*;

verus! {

/// The top-level verdict output.
#[derive(Debug, Clone)]
pub struct VerdictOutput {
    /// AGI/4 specification version (SemVer).
    pub spec_version: String,
    /// Runner version (SemVer).
    pub runner_version: String,
    /// ISO 8601 timestamp of verdict computation.
    pub run_timestamp: String,
    /// Model being evaluated.
    pub model: ModelMetadata,
    /// Per-conjunct evaluation results.
    pub conjuncts: ConjunctsOutput,
    /// Cross-conjunct consistency check result.
    pub consistency_check: ConsistencyCheckOutput,
    /// Name of the verdict.
    pub verdict: String,
    /// Reasons behind the verdict.
    pub verdict_reasons: Vec<String>,
    /// Known gaps in the specification and measurements.
    pub known_gaps_acknowledged: Vec<String>,
}

/// Model identification metadata.
#[derive(Debug, Clone)]
pub struct ModelMetadata {
    /// Model identifier.
    pub id: String,
    /// Organization/lab that created the model.
    pub provider: Option<String>,
    /// Model version or release date.
    pub version_or_date: Option<String>,
}

/// Output for all four conjuncts.
#[derive(Debug, Clone)]
pub struct ConjunctsOutput {
    pub generality: ConjunctReport,
    pub economic_substitutability: ConjunctReport,
    pub environmental_transfer: ConjunctReport,
    pub autonomous_agency: ConjunctReport,
}

/// Output for a single conjunct: status, evidence and margins.
#[derive(Debug, Clone)]
pub struct ConjunctReport {
    /// Conjunct status: "pass", "partial", "fail", or the insufficient-data name.
    pub status: String,
    /// Evidence from upstream sources contributing to this conjunct.
    pub evidence: Vec<EvidenceReport>,
    /// Min/max margin information.
    pub margins: Option<MarginReport>,
}

/// Evidence report with threshold comparison information.
#[derive(Debug, Clone)]
pub struct EvidenceReport {
    /// Source identifier (e.g., "arc-agi-3", "metr-80pct-time-horizon").
    pub source: String,
    /// Measurement identifier within the source.
    pub measurement: String,
    /// Measurement value, as JSON text.
    pub value: String,
    /// Threshold value for this source (if known), in millionths.
    pub threshold: Option<i64>,
    /// Floor value for this source (if known), in millionths.
    pub floor: Option<i64>,
    /// Whether the value passes the threshold.
    pub passes_threshold: Option<bool>,
    /// Whether the value is below the floor.
    pub below_floor: Option<bool>,
    /// Reliability percentile of the measurement.
    pub reliability_percentile: u8,
    /// Provenance metadata for the measurement.
    pub provenance: ProvenanceReport,
}

/// Provenance metadata for an evidence measurement.
#[derive(Debug, Clone)]
pub struct ProvenanceReport {
    /// Source URL or API endpoint.
    pub source_url: String,
    /// ISO 8601 timestamp when data was fetched.
    pub fetch_timestamp: String,
    /// Source version or dataset version (if applicable).
    pub source_version: Option<String>,
    /// The raw value as ingested (before parsing/validation).
    pub raw_value: String,
}

/// Margin information for a conjunct's evidence (value / threshold), in millionths.
#[derive(Debug, Clone, Copy)]
pub struct MarginReport {
    /// Minimum margin across sources.
    pub min: i64,
    /// Maximum margin across sources.
    pub max: i64,
}

/// Consistency check result.
#[derive(Debug, Clone)]
pub struct ConsistencyCheckOutput {
    /// Check status: "pass" or "fail".
    pub status: String,
    /// Which sub-rules failed.
    pub failed_rules: Vec<String>,
    /// Human-readable detail on why the check failed.
    pub detail: Option<String>,
}

/// The characters of an optional string.
pub open spec fn opt_text(o: Option<String>) -> Option<Seq<char>> {
    match o {
        Some(s) => Some(s@),
        None => None,
    }
}

fn copy_opt(o: &Option<String>) -> (r: Option<String>)
    ensures
        opt_text(r) == opt_text(*o),
{
    match o {
        Some(s) => Some(s.clone()),
        None => None,
    }
}

/// Two provenance reports carry the same text.
pub open spec fn same_provenance(a: ProvenanceReport, b: ProvenanceReport) -> bool {
    &&& a.source_url@ == b.source_url@
    &&& a.fetch_timestamp@ == b.fetch_timestamp@
    &&& opt_text(a.source_version) == opt_text(b.source_version)
    &&& a.raw_value@ == b.raw_value@
}

/// Two evidence reports carry the same values and text.
pub open spec fn same_report(a: EvidenceReport, b: EvidenceReport) -> bool {
    &&& a.source@ == b.source@
    &&& a.measurement@ == b.measurement@
    &&& a.value@ == b.value@
    &&& a.threshold == b.threshold
    &&& a.floor == b.floor
    &&& a.passes_threshold == b.passes_threshold
    &&& a.below_floor == b.below_floor
    &&& a.reliability_percentile == b.reliability_percentile
    &&& same_provenance(a.provenance, b.provenance)
}

impl ProvenanceReport {
    /// A copy of this report.
    pub fn duplicate(&self) -> (r: Self)
        ensures
            same_provenance(r, *self),
    {
        ProvenanceReport {
            source_url: self.source_url.clone(),
            fetch_timestamp: self.fetch_timestamp.clone(),
            source_version: copy_opt(&self.source_version),
            raw_value: self.raw_value.clone(),
        }
    }
}

impl EvidenceReport {
    /// A copy of this report.
    pub fn duplicate(&self) -> (r: Self)
        ensures
            same_report(r, *self),
    {
        EvidenceReport {
            source: self.source.clone(),
            measurement: self.measurement.clone(),
            value: self.value.clone(),
            threshold: self.threshold,
            floor: self.floor,
            passes_threshold: self.passes_threshold,
            below_floor: self.below_floor,
            reliability_percentile: self.reliability_percentile,
            provenance: self.provenance.duplicate(),
        }
    }
}

} // verus!
