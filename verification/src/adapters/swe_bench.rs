//! SWE-bench Verified pass@5 adapter for autonomous agency conjunct.
//!
//! Ingests pass@5 success rate from the SWE-bench Verified benchmark.
//! Rejects pass@1-only data. Returns a single Fraction value representing
//! pass@5 performance.

use crate::adapters::{describes, fraction_evidence, is_fraction, validation_message, ModelId};
use crate::decimal::{decimal_text, digits, push_digits};
use crate::evidence::{url_parse, Evidence, SourceId, SourceUrl, ValueError};
use crate::text::concat2;
use vstd::prelude::*;

verus! {

/// Canonical SWE-bench endpoint.
pub const ENDPOINT: &'static str = "https://swe-bench.github.io/api/results";
/// Identifier of the SWE-bench adapter.
pub const SOURCE_ID: &'static str = "swe-bench";
/// Source ID of the evidence: the canonical SWE-bench Verified (pass@5) source.
pub const EVIDENCE_SOURCE_ID: &'static str = "swe-bench-verified";

/// SWE-bench Verified benchmark data: pass@k success rate.
#[derive(Debug, Clone)]
pub struct SweBenchRaw {
    /// The value of k in pass@k. Must be >= 5.
    pub pass_at_k: u32,
    /// Success rate as a fraction, in millionths (0 to 1_000_000).
    pub success_rate: i64,
}

/// Error type for SWE-bench adapter operations.
#[derive(Debug, Clone)]
pub enum SweBenchError {
    /// JSON parsing failed.
    ParseError(String),
    /// Value validation failed (e.g., pass@1-only data, out-of-bounds rate).
    ValidationError(String),
}

impl SweBenchError {
    /// The text `to_string` produces.
    pub open spec fn message(&self) -> Seq<char> {
        match self {
            SweBenchError::ParseError(m) => "SWE-bench parse error: "@ + m@,
            SweBenchError::ValidationError(m) => "SWE-bench validation error: "@ + m@,
        }
    }

    /// Human-readable description of the error.
    pub fn to_string(&self) -> (s: String)
        ensures
            s@ == self.message(),
    {
        match self {
            SweBenchError::ParseError(m) => concat2("SWE-bench parse error: ", m.as_str()),
            SweBenchError::ValidationError(m) => concat2("SWE-bench validation error: ", m.as_str()),
        }
    }
}

/// SWE-bench Verified pass@5 adapter for the success rate measurement.
pub struct SweBenchAdapter {
    /// Canonical SWE-bench endpoint.
    endpoint: SourceUrl,
}

impl View for SweBenchAdapter {
    type V = Seq<char>;

    /// The endpoint the adapter ingests from.
    closed spec fn view(&self) -> Seq<char> {
        self.endpoint@
    }
}

impl SweBenchAdapter {
    /// Create a new SWE-bench adapter with the canonical endpoint.
    pub fn new() -> (r: Result<Self, SweBenchError>)
        ensures
            match (r, url_parse(ENDPOINT@)) {
                (Ok(a), Ok(u)) => a@ == u && a@.len() > 0,
                (Err(SweBenchError::ParseError(m)), Err(e)) => m@ == "invalid endpoint URL: "@ + e,
                _ => false,
            },
    {
        match SourceUrl::parse(ENDPOINT) {
            Ok(endpoint) => Ok(SweBenchAdapter { endpoint }),
            Err(e) => Err(SweBenchError::ParseError(concat2("invalid endpoint URL: ", e.as_str()))),
        }
    }

    /// Create a SWE-bench adapter with a custom endpoint (for testing).
    pub fn with_endpoint(endpoint: SourceUrl) -> (a: Self)
        ensures
            a@ == endpoint@,
    {
        SweBenchAdapter { endpoint }
    }

    /// Stable identifier for this source.
    pub fn id(&self) -> (s: SourceId)
        ensures
            s@ == SOURCE_ID@,
    {
        SourceId::new(SOURCE_ID)
    }

    /// The endpoint this source ingests from.
    pub fn endpoint(&self) -> (u: &SourceUrl)
        ensures
            u@ == self@,
    {
        &self.endpoint
    }

    /// Convert a parsed record into one evidence value: the pass@k success
    /// rate as a fraction, stamped with the fetch time. Rejects pass@k with
    /// k < 5 and rates outside [0, 1].
    pub fn to_evidence(&self, raw: SweBenchRaw, _model: &ModelId) -> (r: Result<
        Vec<Evidence>,
        SweBenchError,
    >)
        ensures
            r is Ok <==> raw.pass_at_k >= 5 && 0 <= raw.success_rate <= 1_000_000,
            r matches Ok(v) ==> v@.len() == 1 && describes(
                v@[0],
                EVIDENCE_SOURCE_ID@,
                measurement_name(raw.pass_at_k),
                80,
                self@,
                "swe-bench-verified-v1"@,
                decimal_text(raw.success_rate as int),
            ) && is_fraction(v@[0].value, raw.success_rate as int),
            r matches Err(e) ==> e matches SweBenchError::ValidationError(m) && m@ == if raw.pass_at_k
                < 5 {
                "pass@"@ + digits(raw.pass_at_k as nat)
                    + " not acceptable; SPEC requires pass@k where k >= 5"@
            } else {
                "invalid success rate value: "@ + ValueError::FractionOutOfRange.message()
            },
    {
        // Reject pass@1-only data: pass@k is required with k >= 5.
        if raw.pass_at_k < 5 {
            let mut m = String::from_str("pass@");
            push_digits(&mut m, raw.pass_at_k as u64);
            m.append(" not acceptable; SPEC requires pass@k where k >= 5");
            return Err(SweBenchError::ValidationError(m));
        }
        let mut measurement = String::from_str("pass@");
        push_digits(&mut measurement, raw.pass_at_k as u64);
        measurement.append("-rate");
        match fraction_evidence(
            EVIDENCE_SOURCE_ID,
            measurement,
            raw.success_rate,
            80,
            &self.endpoint,
            "swe-bench-verified-v1",
        ) {
            Ok(evidence) => Ok(vec![evidence]),
            Err(e) => Err(
                SweBenchError::ValidationError(validation_message("invalid success rate value: ", e)),
            ),
        }
    }
}

/// Measurement name of a pass@k record: `pass@<k>-rate`.
pub open spec fn measurement_name(k: u32) -> Seq<char> {
    "pass@"@ + digits(k as nat) + "-rate"@
}

impl Default for SweBenchAdapter {
    /// The adapter for the canonical endpoint.
    fn default() -> (a: Self)
        ensures
            a@ == match url_parse(ENDPOINT@) {
                Ok(u) => u,
                Err(_) => ENDPOINT@,
            },
            a@.len() > 0,
    {
        proof {
            reveal_strlit("https://swe-bench.github.io/api/results");
        }
        SweBenchAdapter { endpoint: SourceUrl::fixed(ENDPOINT) }
    }
}

} // verus!
