//! GPQA Diamond adapter for generality conjunct.
//!
//! Ingests accuracy from the GPQA Diamond benchmark.
//! Returns a single Fraction value representing performance on the evaluation suite.

use crate::adapters::{describes, fraction_evidence, is_fraction, validation_message, ModelId};
use crate::decimal::decimal_text;
use crate::evidence::{url_parse, Evidence, SourceId, SourceUrl, ValueError};
use crate::text::concat2;
use vstd::prelude::*;

verus! {

/// Canonical GPQA Diamond endpoint.
pub const ENDPOINT: &'static str = "https://api.gpqabenchmark.com/diamond/results";
/// Source ID of the GPQA Diamond evidence.
pub const SOURCE_ID: &'static str = "gpqa-diamond";

/// GPQA Diamond benchmark data: accuracy on the evaluation suite.
#[derive(Debug, Clone)]
pub struct GpqaDiamondRaw {
    /// Accuracy as a fraction, in millionths (0 to 1_000_000).
    pub accuracy: i64,
}

/// Error type for GPQA Diamond adapter operations.
#[derive(Debug, Clone)]
pub enum GpqaDiamondError {
    /// JSON parsing failed.
    ParseError(String),
    /// Value validation failed (e.g., out-of-bounds accuracy).
    ValidationError(String),
}

impl GpqaDiamondError {
    /// The text `to_string` produces.
    pub open spec fn message(&self) -> Seq<char> {
        match self {
            GpqaDiamondError::ParseError(m) => "GPQA Diamond parse error: "@ + m@,
            GpqaDiamondError::ValidationError(m) => "GPQA Diamond validation error: "@ + m@,
        }
    }

    /// Human-readable description of the error.
    pub fn to_string(&self) -> (s: String)
        ensures
            s@ == self.message(),
    {
        match self {
            GpqaDiamondError::ParseError(m) => concat2("GPQA Diamond parse error: ", m.as_str()),
            GpqaDiamondError::ValidationError(m) => concat2("GPQA Diamond validation error: ", m.as_str()),
        }
    }
}

/// GPQA Diamond adapter for the accuracy measurement.
pub struct GpqaDiamondAdapter {
    /// Canonical GPQA Diamond endpoint.
    endpoint: SourceUrl,
}

impl View for GpqaDiamondAdapter {
    type V = Seq<char>;

    /// The endpoint the adapter ingests from.
    closed spec fn view(&self) -> Seq<char> {
        self.endpoint@
    }
}

impl GpqaDiamondAdapter {
    /// Create a new GPQA Diamond adapter with the canonical endpoint.
    pub fn new() -> (r: Result<Self, GpqaDiamondError>)
        ensures
            match (r, url_parse(ENDPOINT@)) {
                (Ok(a), Ok(u)) => a@ == u && a@.len() > 0,
                (Err(GpqaDiamondError::ParseError(m)), Err(e)) => m@ == "invalid endpoint URL: "@ + e,
                _ => false,
            },
    {
        match SourceUrl::parse(ENDPOINT) {
            Ok(endpoint) => Ok(GpqaDiamondAdapter { endpoint }),
            Err(e) => Err(GpqaDiamondError::ParseError(concat2("invalid endpoint URL: ", e.as_str()))),
        }
    }

    /// Create a GPQA Diamond adapter with a custom endpoint (for testing).
    pub fn with_endpoint(endpoint: SourceUrl) -> (a: Self)
        ensures
            a@ == endpoint@,
    {
        GpqaDiamondAdapter { endpoint }
    }

    /// Stable identifier for this source.
    pub fn id(&self) -> (s: SourceId)
        ensures
            s@ == SOURCE_ID@,
    {
        SourceId::new(SOURCE_ID)
    }

    /// The endpoint this source ingests from.
    pub fn endpoint(&self) -> (u: &SourceUrl)
        ensures
            u@ == self@,
    {
        &self.endpoint
    }

    /// Convert a parsed record into one evidence value: the accuracy
    /// as a fraction, stamped with the fetch time. Fails when the value lies
    /// outside [0, 1].
    pub fn to_evidence(&self, raw: GpqaDiamondRaw, _model: &ModelId) -> (r: Result<Vec<Evidence>, GpqaDiamondError>)
        ensures
            r is Ok <==> 0 <= raw.accuracy <= 1_000_000,
            r matches Ok(v) ==> v@.len() == 1 && describes(
                v@[0],
                SOURCE_ID@,
                "accuracy"@,
                95,
                self@,
                "gpqa-diamond-v1"@,
                decimal_text(raw.accuracy as int),
            ) && is_fraction(v@[0].value, raw.accuracy as int),
            r matches Err(e) ==> e matches GpqaDiamondError::ValidationError(m) && m@
                == "invalid accuracy value: "@ + ValueError::FractionOutOfRange.message(),
    {
        match fraction_evidence(
            SOURCE_ID,
            String::from_str("accuracy"),
            raw.accuracy,
            95,
            &self.endpoint,
            "gpqa-diamond-v1",
        ) {
            Ok(evidence) => Ok(vec![evidence]),
            Err(e) => Err(GpqaDiamondError::ValidationError(validation_message("invalid accuracy value: ", e))),
        }
    }
}

impl Default for GpqaDiamondAdapter {
    /// The adapter for the canonical endpoint.
    fn default() -> (a: Self)
        ensures
            a@ == match url_parse(ENDPOINT@) {
                Ok(u) => u,
                Err(_) => ENDPOINT@,
            },
            a@.len() > 0,
    {
        proof {
            reveal_strlit("https://api.gpqabenchmark.com/diamond/results");
        }
        GpqaDiamondAdapter { endpoint: SourceUrl::fixed(ENDPOINT) }
    }
}

} // verus!
