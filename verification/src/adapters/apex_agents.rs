//! APEX-Agents adapter for economic substitutability conjunct.
//!
//! Ingests task completion rate from the APEX-Agents benchmark.
//! Returns a single Fraction value representing task completion performance.

use crate::adapters::{describes, fraction_evidence, is_fraction, validation_message, ModelId};
use crate::decimal::decimal_text;
use crate::evidence::{url_parse, Evidence, SourceId, SourceUrl, ValueError};
use crate::text::concat2;
use vstd::prelude::*;

verus! {

/// Canonical APEX-Agents endpoint.
pub const ENDPOINT: &'static str = "https://apexagents.ai/api/results";
/// Source ID of the APEX-Agents evidence.
pub const SOURCE_ID: &'static str = "apex-agents";

/// APEX-Agents benchmark data: task completion rate.
#[derive(Debug, Clone)]
pub struct ApexAgentsRaw {
    /// Task completion rate as a fraction, in millionths (0 to 1_000_000).
    pub task_completion_rate: i64,
}

/// Error type for APEX-Agents adapter operations.
#[derive(Debug, Clone)]
pub enum ApexAgentsError {
    /// JSON parsing failed.
    ParseError(String),
    /// Value validation failed (e.g., out-of-bounds rate).
    ValidationError(String),
}

impl ApexAgentsError {
    /// The text `to_string` produces.
    pub open spec fn message(&self) -> Seq<char> {
        match self {
            ApexAgentsError::ParseError(m) => "APEX-Agents parse error: "@ + m@,
            ApexAgentsError::ValidationError(m) => "APEX-Agents validation error: "@ + m@,
        }
    }

    /// Human-readable description of the error.
    pub fn to_string(&self) -> (s: String)
        ensures
            s@ == self.message(),
    {
        match self {
            ApexAgentsError::ParseError(m) => concat2("APEX-Agents parse error: ", m.as_str()),
            ApexAgentsError::ValidationError(m) => concat2("APEX-Agents validation error: ", m.as_str()),
        }
    }
}

/// APEX-Agents adapter for the task completion rate measurement.
pub struct ApexAgentsAdapter {
    /// Canonical APEX-Agents endpoint.
    endpoint: SourceUrl,
}

impl View for ApexAgentsAdapter {
    type V = Seq<char>;

    /// The endpoint the adapter ingests from.
    closed spec fn view(&self) -> Seq<char> {
        self.endpoint@
    }
}

impl ApexAgentsAdapter {
    /// Create a new APEX-Agents adapter with the canonical endpoint.
    pub fn new() -> (r: Result<Self, ApexAgentsError>)
        ensures
            match (r, url_parse(ENDPOINT@)) {
                (Ok(a), Ok(u)) => a@ == u && a@.len() > 0,
                (Err(ApexAgentsError::ParseError(m)), Err(e)) => m@ == "invalid endpoint URL: "@ + e,
                _ => false,
            },
    {
        match SourceUrl::parse(ENDPOINT) {
            Ok(endpoint) => Ok(ApexAgentsAdapter { endpoint }),
            Err(e) => Err(ApexAgentsError::ParseError(concat2("invalid endpoint URL: ", e.as_str()))),
        }
    }

    /// Create a APEX-Agents adapter with a custom endpoint (for testing).
    pub fn with_endpoint(endpoint: SourceUrl) -> (a: Self)
        ensures
            a@ == endpoint@,
    {
        ApexAgentsAdapter { endpoint }
    }

    /// Stable identifier for this source.
    pub fn id(&self) -> (s: SourceId)
        ensures
            s@ == SOURCE_ID@,
    {
        SourceId::new(SOURCE_ID)
    }

    /// The endpoint this source ingests from.
    pub fn endpoint(&self) -> (u: &SourceUrl)
        ensures
            u@ == self@,
    {
        &self.endpoint
    }

    /// Convert a parsed record into one evidence value: the task completion rate
    /// as a fraction, stamped with the fetch time. Fails when the value lies
    /// outside [0, 1].
    pub fn to_evidence(&self, raw: ApexAgentsRaw, _model: &ModelId) -> (r: Result<Vec<Evidence>, ApexAgentsError>)
        ensures
            r is Ok <==> 0 <= raw.task_completion_rate <= 1_000_000,
            r matches Ok(v) ==> v@.len() == 1 && describes(
                v@[0],
                SOURCE_ID@,
                "task-completion-rate"@,
                95,
                self@,
                "apex-agents-v1"@,
                decimal_text(raw.task_completion_rate as int),
            ) && is_fraction(v@[0].value, raw.task_completion_rate as int),
            r matches Err(e) ==> e matches ApexAgentsError::ValidationError(m) && m@
                == "invalid task completion rate value: "@ + ValueError::FractionOutOfRange.message(),
    {
        match fraction_evidence(
            SOURCE_ID,
            String::from_str("task-completion-rate"),
            raw.task_completion_rate,
            95,
            &self.endpoint,
            "apex-agents-v1",
        ) {
            Ok(evidence) => Ok(vec![evidence]),
            Err(e) => Err(ApexAgentsError::ValidationError(validation_message("invalid task completion rate value: ", e))),
        }
    }
}

impl Default for ApexAgentsAdapter {
    /// The adapter for the canonical endpoint.
    fn default() -> (a: Self)
        ensures
            a@ == match url_parse(ENDPOINT@) {
                Ok(u) => u,
                Err(_) => ENDPOINT@,
            },
            a@.len() > 0,
    {
        proof {
            reveal_strlit("https://apexagents.ai/api/results");
        }
        ApexAgentsAdapter { endpoint: SourceUrl::fixed(ENDPOINT) }
    }
}

} // verus!
