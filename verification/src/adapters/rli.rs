//! RLI (Remote Labor Index) adapter for economic substitutability conjunct.
//!
//! Ingests completion rate at expert-comparable quality from the Remote Labor Index.
//! Returns a single Fraction value representing performance on labor tasks.

use crate::adapters::{describes, fraction_evidence, is_fraction, validation_message, ModelId};
use crate::decimal::decimal_text;
use crate::evidence::{url_parse, Evidence, SourceId, SourceUrl, ValueError};
use crate::text::concat2;
use vstd::prelude::*;

verus! {

/// Canonical RLI endpoint.
pub const ENDPOINT: &'static str = "https://remoteindex.scale.com/api/rli";
/// Source ID of the RLI evidence.
pub const SOURCE_ID: &'static str = "rli";

/// RLI benchmark data: completion rate at expert-comparable quality.
#[derive(Debug, Clone)]
pub struct RliRaw {
    /// Completion rate as a fraction, in millionths (0 to 1_000_000).
    pub completion_rate: i64,
}

/// Error type for RLI adapter operations.
#[derive(Debug, Clone)]
pub enum RliError {
    /// JSON parsing failed.
    ParseError(String),
    /// Value validation failed (e.g., out-of-bounds rate).
    ValidationError(String),
}

impl RliError {
    /// The text `to_string` produces.
    pub open spec fn message(&self) -> Seq<char> {
        match self {
            RliError::ParseError(m) => "RLI parse error: "@ + m@,
            RliError::ValidationError(m) => "RLI validation error: "@ + m@,
        }
    }

    /// Human-readable description of the error.
    pub fn to_string(&self) -> (s: String)
        ensures
            s@ == self.message(),
    {
        match self {
            RliError::ParseError(m) => concat2("RLI parse error: ", m.as_str()),
            RliError::ValidationError(m) => concat2("RLI validation error: ", m.as_str()),
        }
    }
}

/// RLI adapter for the completion rate measurement.
pub struct RliAdapter {
    /// Canonical RLI endpoint.
    endpoint: SourceUrl,
}

impl View for RliAdapter {
    type V = Seq<char>;

    /// The endpoint the adapter ingests from.
    closed spec fn view(&self) -> Seq<char> {
        self.endpoint@
    }
}

impl RliAdapter {
    /// Create a new RLI adapter with the canonical endpoint.
    pub fn new() -> (r: Result<Self, RliError>)
        ensures
            match (r, url_parse(ENDPOINT@)) {
                (Ok(a), Ok(u)) => a@ == u && a@.len() > 0,
                (Err(RliError::ParseError(m)), Err(e)) => m@ == "invalid endpoint URL: "@ + e,
                _ => false,
            },
    {
        match SourceUrl::parse(ENDPOINT) {
            Ok(endpoint) => Ok(RliAdapter { endpoint }),
            Err(e) => Err(RliError::ParseError(concat2("invalid endpoint URL: ", e.as_str()))),
        }
    }

    /// Create a RLI adapter with a custom endpoint (for testing).
    pub fn with_endpoint(endpoint: SourceUrl) -> (a: Self)
        ensures
            a@ == endpoint@,
    {
        RliAdapter { endpoint }
    }

    /// Stable identifier for this source.
    pub fn id(&self) -> (s: SourceId)
        ensures
            s@ == SOURCE_ID@,
    {
        SourceId::new(SOURCE_ID)
    }

    /// The endpoint this source ingests from.
    pub fn endpoint(&self) -> (u: &SourceUrl)
        ensures
            u@ == self@,
    {
        &self.endpoint
    }

    /// Convert a parsed record into one evidence value: the completion rate
    /// as a fraction, stamped with the fetch time. Fails when the value lies
    /// outside [0, 1].
    pub fn to_evidence(&self, raw: RliRaw, _model: &ModelId) -> (r: Result<Vec<Evidence>, RliError>)
        ensures
            r is Ok <==> 0 <= raw.completion_rate <= 1_000_000,
            r matches Ok(v) ==> v@.len() == 1 && describes(
                v@[0],
                SOURCE_ID@,
                "completion-rate"@,
                95,
                self@,
                "rli-v1"@,
                decimal_text(raw.completion_rate as int),
            ) && is_fraction(v@[0].value, raw.completion_rate as int),
            r matches Err(e) ==> e matches RliError::ValidationError(m) && m@
                == "invalid completion rate value: "@ + ValueError::FractionOutOfRange.message(),
    {
        match fraction_evidence(
            SOURCE_ID,
            String::from_str("completion-rate"),
            raw.completion_rate,
            95,
            &self.endpoint,
            "rli-v1",
        ) {
            Ok(evidence) => Ok(vec![evidence]),
            Err(e) => Err(RliError::ValidationError(validation_message("invalid completion rate value: ", e))),
        }
    }
}

impl Default for RliAdapter {
    /// The adapter for the canonical endpoint.
    fn default() -> (a: Self)
        ensures
            a@ == match url_parse(ENDPOINT@) {
                Ok(u) => u,
                Err(_) => ENDPOINT@,
            },
            a@.len() > 0,
    {
        proof {
            reveal_strlit("https://remoteindex.scale.com/api/rli");
        }
        RliAdapter { endpoint: SourceUrl::fixed(ENDPOINT) }
    }
}

} // verus!
