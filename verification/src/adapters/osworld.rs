//! OSWorld adapter for environmental transfer conjunct.
//!
//! Ingests task completion rate from the OSWorld benchmark.
//! Returns a single Fraction value representing task completion with no domain-specific scaffolding.

use crate::adapters::{describes, fraction_evidence, is_fraction, validation_message, ModelId};
use crate::decimal::decimal_text;
use crate::evidence::{url_parse, Evidence, SourceId, SourceUrl, ValueError};
use crate::text::concat2;
use vstd::prelude::*;

verus! {

/// Canonical OSWorld endpoint.
pub const ENDPOINT: &'static str = "https://osworld.ai/api/results";
/// Source ID of the OSWorld evidence.
pub const SOURCE_ID: &'static str = "osworld";

/// OSWorld benchmark data: task completion rate with no domain-specific scaffolding.
#[derive(Debug, Clone)]
pub struct OsworldRaw {
    /// Task completion rate as a fraction, in millionths (0 to 1_000_000).
    pub task_completion_rate: i64,
}

/// Error type for OSWorld adapter operations.
#[derive(Debug, Clone)]
pub enum OsworldError {
    /// JSON parsing failed.
    ParseError(String),
    /// Value validation failed (e.g., out-of-bounds rate).
    ValidationError(String),
}

impl OsworldError {
    /// The text `to_string` produces.
    pub open spec fn message(&self) -> Seq<char> {
        match self {
            OsworldError::ParseError(m) => "OSWorld parse error: "@ + m@,
            OsworldError::ValidationError(m) => "OSWorld validation error: "@ + m@,
        }
    }

    /// Human-readable description of the error.
    pub fn to_string(&self) -> (s: String)
        ensures
            s@ == self.message(),
    {
        match self {
            OsworldError::ParseError(m) => concat2("OSWorld parse error: ", m.as_str()),
            OsworldError::ValidationError(m) => concat2("OSWorld validation error: ", m.as_str()),
        }
    }
}

/// OSWorld adapter for the task completion rate measurement.
pub struct OsworldAdapter {
    /// Canonical OSWorld endpoint.
    endpoint: SourceUrl,
}

impl View for OsworldAdapter {
    type V = Seq<char>;

    /// The endpoint the adapter ingests from.
    closed spec fn view(&self) -> Seq<char> {
        self.endpoint@
    }
}

impl OsworldAdapter {
    /// Create a new OSWorld adapter with the canonical endpoint.
    pub fn new() -> (r: Result<Self, OsworldError>)
        ensures
            match (r, url_parse(ENDPOINT@)) {
                (Ok(a), Ok(u)) => a@ == u && a@.len() > 0,
                (Err(OsworldError::ParseError(m)), Err(e)) => m@ == "invalid endpoint URL: "@ + e,
                _ => false,
            },
    {
        match SourceUrl::parse(ENDPOINT) {
            Ok(endpoint) => Ok(OsworldAdapter { endpoint }),
            Err(e) => Err(OsworldError::ParseError(concat2("invalid endpoint URL: ", e.as_str()))),
        }
    }

    /// Create a OSWorld adapter with a custom endpoint (for testing).
    pub fn with_endpoint(endpoint: SourceUrl) -> (a: Self)
        ensures
            a@ == endpoint@,
    {
        OsworldAdapter { endpoint }
    }

    /// Stable identifier for this source.
    pub fn id(&self) -> (s: SourceId)
        ensures
            s@ == SOURCE_ID@,
    {
        SourceId::new(SOURCE_ID)
    }

    /// The endpoint this source ingests from.
    pub fn endpoint(&self) -> (u: &SourceUrl)
        ensures
            u@ == self@,
    {
        &self.endpoint
    }

    /// Convert a parsed record into one evidence value: the task completion rate
    /// as a fraction, stamped with the fetch time. Fails when the value lies
    /// outside [0, 1].
    pub fn to_evidence(&self, raw: OsworldRaw, _model: &ModelId) -> (r: Result<Vec<Evidence>, OsworldError>)
        ensures
            r is Ok <==> 0 <= raw.task_completion_rate <= 1_000_000,
            r matches Ok(v) ==> v@.len() == 1 && describes(
                v@[0],
                SOURCE_ID@,
                "task-completion-rate"@,
                80,
                self@,
                "osworld-v1"@,
                decimal_text(raw.task_completion_rate as int),
            ) && is_fraction(v@[0].value, raw.task_completion_rate as int),
            r matches Err(e) ==> e matches OsworldError::ValidationError(m) && m@
                == "invalid task completion rate value: "@ + ValueError::FractionOutOfRange.message(),
    {
        match fraction_evidence(
            SOURCE_ID,
            String::from_str("task-completion-rate"),
            raw.task_completion_rate,
            80,
            &self.endpoint,
            "osworld-v1",
        ) {
            Ok(evidence) => Ok(vec![evidence]),
            Err(e) => Err(OsworldError::ValidationError(validation_message("invalid task completion rate value: ", e))),
        }
    }
}

impl Default for OsworldAdapter {
    /// The adapter for the canonical endpoint.
    fn default() -> (a: Self)
        ensures
            a@ == match url_parse(ENDPOINT@) {
                Ok(u) => u,
                Err(_) => ENDPOINT@,
            },
            a@.len() > 0,
    {
        proof {
            reveal_strlit("https://osworld.ai/api/results");
        }
        OsworldAdapter { endpoint: SourceUrl::fixed(ENDPOINT) }
    }
}

} // verus!
