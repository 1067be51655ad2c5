//! METR time-horizon adapter for autonomous agency conjunct.
//!
//! Ingests the 80%-time horizon metric: the quantile of time required for autonomous task completion.
//! Returns a single Hours value per model.

use crate::adapters::{describes, hours_evidence, is_hours, validation_message, ModelId};
use crate::decimal::decimal_text;
use crate::evidence::{url_parse, Evidence, SourceId, SourceUrl, ValueError};
use crate::text::concat2;
use vstd::prelude::*;

verus! {

/// Canonical METR endpoint.
pub const ENDPOINT: &'static str = "https://metr.org/api/time-horizon";
/// Source ID of the METR evidence.
pub const SOURCE_ID: &'static str = "metr-80pct-time-horizon";

/// METR time-horizon measurement: 80%-quantile hours for autonomous task completion.
#[derive(Debug, Clone)]
pub struct MetrRaw {
    /// The 80%-time horizon value in hours, in millionths of an hour.
    pub value: i64,
}

/// Error type for METR adapter operations.
#[derive(Debug, Clone)]
pub enum MetrError {
    /// JSON parsing failed.
    ParseError(String),
    /// Value validation failed (e.g., negative hours).
    ValidationError(String),
}

impl MetrError {
    /// The text `to_string` produces.
    pub open spec fn message(&self) -> Seq<char> {
        match self {
            MetrError::ParseError(m) => "METR parse error: "@ + m@,
            MetrError::ValidationError(m) => "METR validation error: "@ + m@,
        }
    }

    /// Human-readable description of the error.
    pub fn to_string(&self) -> (s: String)
        ensures
            s@ == self.message(),
    {
        match self {
            MetrError::ParseError(m) => concat2("METR parse error: ", m.as_str()),
            MetrError::ValidationError(m) => concat2("METR validation error: ", m.as_str()),
        }
    }
}

/// METR adapter for the time-horizon measurement.
pub struct MetrAdapter {
    /// Canonical METR API endpoint.
    endpoint: SourceUrl,
}

impl View for MetrAdapter {
    type V = Seq<char>;

    /// The endpoint the adapter ingests from.
    closed spec fn view(&self) -> Seq<char> {
        self.endpoint@
    }
}

impl MetrAdapter {
    /// Create a new METR adapter with the canonical endpoint.
    pub fn new() -> (r: Result<Self, MetrError>)
        ensures
            match (r, url_parse(ENDPOINT@)) {
                (Ok(a), Ok(u)) => a@ == u && a@.len() > 0,
                (Err(MetrError::ParseError(m)), Err(e)) => m@ == "invalid endpoint URL: "@ + e,
                _ => false,
            },
    {
        match SourceUrl::parse(ENDPOINT) {
            Ok(endpoint) => Ok(MetrAdapter { endpoint }),
            Err(e) => Err(MetrError::ParseError(concat2("invalid endpoint URL: ", e.as_str()))),
        }
    }

    /// Create a METR adapter with a custom endpoint (for testing).
    pub fn with_endpoint(endpoint: SourceUrl) -> (a: Self)
        ensures
            a@ == endpoint@,
    {
        MetrAdapter { endpoint }
    }

    /// Stable identifier for this source.
    pub fn id(&self) -> (s: SourceId)
        ensures
            s@ == SOURCE_ID@,
    {
        SourceId::new(SOURCE_ID)
    }

    /// The endpoint this source ingests from.
    pub fn endpoint(&self) -> (u: &SourceUrl)
        ensures
            u@ == self@,
    {
        &self.endpoint
    }

    /// Convert a parsed record into one evidence value: the time horizon in
    /// hours, stamped with the fetch time. Fails when the value is negative.
    pub fn to_evidence(&self, raw: MetrRaw, _model: &ModelId) -> (r: Result<Vec<Evidence>, MetrError>)
        ensures
            r is Ok <==> 0 <= raw.value,
            r matches Ok(v) ==> v@.len() == 1 && describes(
                v@[0],
                SOURCE_ID@,
                "80pct-time-horizon"@,
                80,
                self@,
                "metr-v1"@,
                decimal_text(raw.value as int),
            ) && is_hours(v@[0].value, raw.value as int),
            r matches Err(e) ==> e matches MetrError::ValidationError(m) && m@
                == "invalid hours value: "@ + ValueError::NegativeHours.message(),
    {
        match hours_evidence(
            SOURCE_ID,
            String::from_str("80pct-time-horizon"),
            raw.value,
            80,
            &self.endpoint,
            "metr-v1",
        ) {
            Ok(evidence) => Ok(vec![evidence]),
            Err(e) => Err(MetrError::ValidationError(validation_message("invalid hours value: ", e))),
        }
    }
}

impl Default for MetrAdapter {
    /// The adapter for the canonical endpoint.
    fn default() -> (a: Self)
        ensures
            a@ == match url_parse(ENDPOINT@) {
                Ok(u) => u,
                Err(_) => ENDPOINT@,
            },
            a@.len() > 0,
    {
        proof {
            reveal_strlit("https://metr.org/api/time-horizon");
        }
        MetrAdapter { endpoint: SourceUrl::fixed(ENDPOINT) }
    }
}

} // verus!
