//! RE-Bench adapter for autonomous agency conjunct.
//!
//! Ingests AI research engineering task success rate from the RE-Bench benchmark.
//! Returns a single Fraction value representing task success performance.

use crate::adapters::{describes, fraction_evidence, is_fraction, validation_message, ModelId};
use crate::decimal::decimal_text;
use crate::evidence::{url_parse, Evidence, SourceId, SourceUrl, ValueError};
use crate::text::concat2;
use vstd::prelude::*;

verus! {

/// Canonical RE-Bench endpoint.
pub const ENDPOINT: &'static str = "https://re-bench.metr.org/api/results";
/// Source ID of the RE-Bench evidence.
pub const SOURCE_ID: &'static str = "re-bench";

/// RE-Bench benchmark data: AI research engineering task success rate.
#[derive(Debug, Clone)]
pub struct ReBenchRaw {
    /// Task success rate as a fraction, in millionths (0 to 1_000_000).
    pub task_success_rate: i64,
}

/// Error type for RE-Bench adapter operations.
#[derive(Debug, Clone)]
pub enum ReBenchError {
    /// JSON parsing failed.
    ParseError(String),
    /// Value validation failed (e.g., out-of-bounds rate).
    ValidationError(String),
}

impl ReBenchError {
    /// The text `to_string` produces.
    pub open spec fn message(&self) -> Seq<char> {
        match self {
            ReBenchError::ParseError(m) => "RE-Bench parse error: "@ + m@,
            ReBenchError::ValidationError(m) => "RE-Bench validation error: "@ + m@,
        }
    }

    /// Human-readable description of the error.
    pub fn to_string(&self) -> (s: String)
        ensures
            s@ == self.message(),
    {
        match self {
            ReBenchError::ParseError(m) => concat2("RE-Bench parse error: ", m.as_str()),
            ReBenchError::ValidationError(m) => concat2("RE-Bench validation error: ", m.as_str()),
        }
    }
}

/// RE-Bench adapter for the task success rate measurement.
pub struct ReBenchAdapter {
    /// Canonical RE-Bench endpoint.
    endpoint: SourceUrl,
}

impl View for ReBenchAdapter {
    type V = Seq<char>;

    /// The endpoint the adapter ingests from.
    closed spec fn view(&self) -> Seq<char> {
        self.endpoint@
    }
}

impl ReBenchAdapter {
    /// Create a new RE-Bench adapter with the canonical endpoint.
    pub fn new() -> (r: Result<Self, ReBenchError>)
        ensures
            match (r, url_parse(ENDPOINT@)) {
                (Ok(a), Ok(u)) => a@ == u && a@.len() > 0,
                (Err(ReBenchError::ParseError(m)), Err(e)) => m@ == "invalid endpoint URL: "@ + e,
                _ => false,
            },
    {
        match SourceUrl::parse(ENDPOINT) {
            Ok(endpoint) => Ok(ReBenchAdapter { endpoint }),
            Err(e) => Err(ReBenchError::ParseError(concat2("invalid endpoint URL: ", e.as_str()))),
        }
    }

    /// Create a RE-Bench adapter with a custom endpoint (for testing).
    pub fn with_endpoint(endpoint: SourceUrl) -> (a: Self)
        ensures
            a@ == endpoint@,
    {
        ReBenchAdapter { endpoint }
    }

    /// Stable identifier for this source.
    pub fn id(&self) -> (s: SourceId)
        ensures
            s@ == SOURCE_ID@,
    {
        SourceId::new(SOURCE_ID)
    }

    /// The endpoint this source ingests from.
    pub fn endpoint(&self) -> (u: &SourceUrl)
        ensures
            u@ == self@,
    {
        &self.endpoint
    }

    /// Convert a parsed record into one evidence value: the task success rate
    /// as a fraction, stamped with the fetch time. Fails when the value lies
    /// outside [0, 1].
    pub fn to_evidence(&self, raw: ReBenchRaw, _model: &ModelId) -> (r: Result<Vec<Evidence>, ReBenchError>)
        ensures
            r is Ok <==> 0 <= raw.task_success_rate <= 1_000_000,
            r matches Ok(v) ==> v@.len() == 1 && describes(
                v@[0],
                SOURCE_ID@,
                "task-success-rate"@,
                80,
                self@,
                "re-bench-v1"@,
                decimal_text(raw.task_success_rate as int),
            ) && is_fraction(v@[0].value, raw.task_success_rate as int),
            r matches Err(e) ==> e matches ReBenchError::ValidationError(m) && m@
                == "invalid task success rate value: "@ + ValueError::FractionOutOfRange.message(),
    {
        match fraction_evidence(
            SOURCE_ID,
            String::from_str("task-success-rate"),
            raw.task_success_rate,
            80,
            &self.endpoint,
            "re-bench-v1",
        ) {
            Ok(evidence) => Ok(vec![evidence]),
            Err(e) => Err(ReBenchError::ValidationError(validation_message("invalid task success rate value: ", e))),
        }
    }
}

impl Default for ReBenchAdapter {
    /// The adapter for the canonical endpoint.
    fn default() -> (a: Self)
        ensures
            a@ == match url_parse(ENDPOINT@) {
                Ok(u) => u,
                Err(_) => ENDPOINT@,
            },
            a@.len() > 0,
    {
        proof {
            reveal_strlit("https://re-bench.metr.org/api/results");
        }
        ReBenchAdapter { endpoint: SourceUrl::fixed(ENDPOINT) }
    }
}

} // verus!
