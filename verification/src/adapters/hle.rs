//! HLE (Humanity's Last Exam) adapter for generality conjunct.
//!
//! Ingests overall accuracy from the Humanity's Last Exam benchmark.
//! Returns a single Fraction value representing performance on the evaluation suite.

use crate::adapters::{describes, fraction_evidence, is_fraction, validation_message, ModelId};
use crate::decimal::decimal_text;
use crate::evidence::{url_parse, Evidence, SourceId, SourceUrl, ValueError};
use crate::text::concat2;
use vstd::prelude::*;

verus! {

/// Canonical HLE endpoint.
pub const ENDPOINT: &'static str = "https://humlastexam.cais.net/api/results";
/// Source ID of the HLE evidence.
pub const SOURCE_ID: &'static str = "hle";

/// HLE benchmark data: overall accuracy on the evaluation suite.
#[derive(Debug, Clone)]
pub struct HleRaw {
    /// Overall accuracy as a fraction, in millionths (0 to 1_000_000).
    pub overall_accuracy: i64,
}

/// Error type for HLE adapter operations.
#[derive(Debug, Clone)]
pub enum HleError {
    /// JSON parsing failed.
    ParseError(String),
    /// Value validation failed (e.g., out-of-bounds accuracy).
    ValidationError(String),
}

impl HleError {
    /// The text `to_string` produces.
    pub open spec fn message(&self) -> Seq<char> {
        match self {
            HleError::ParseError(m) => "HLE parse error: "@ + m@,
            HleError::ValidationError(m) => "HLE validation error: "@ + m@,
        }
    }

    /// Human-readable description of the error.
    pub fn to_string(&self) -> (s: String)
        ensures
            s@ == self.message(),
    {
        match self {
            HleError::ParseError(m) => concat2("HLE parse error: ", m.as_str()),
            HleError::ValidationError(m) => concat2("HLE validation error: ", m.as_str()),
        }
    }
}

/// HLE adapter for the overall accuracy measurement.
pub struct HleAdapter {
    /// Canonical HLE endpoint (CAIS-operated).
    endpoint: SourceUrl,
}

impl View for HleAdapter {
    type V = Seq<char>;

    /// The endpoint the adapter ingests from.
    closed spec fn view(&self) -> Seq<char> {
        self.endpoint@
    }
}

impl HleAdapter {
    /// Create a new HLE adapter with the canonical endpoint.
    pub fn new() -> (r: Result<Self, HleError>)
        ensures
            match (r, url_parse(ENDPOINT@)) {
                (Ok(a), Ok(u)) => a@ == u && a@.len() > 0,
                (Err(HleError::ParseError(m)), Err(e)) => m@ == "invalid endpoint URL: "@ + e,
                _ => false,
            },
    {
        match SourceUrl::parse(ENDPOINT) {
            Ok(endpoint) => Ok(HleAdapter { endpoint }),
            Err(e) => Err(HleError::ParseError(concat2("invalid endpoint URL: ", e.as_str()))),
        }
    }

    /// Create a HLE adapter with a custom endpoint (for testing).
    pub fn with_endpoint(endpoint: SourceUrl) -> (a: Self)
        ensures
            a@ == endpoint@,
    {
        HleAdapter { endpoint }
    }

    /// Stable identifier for this source.
    pub fn id(&self) -> (s: SourceId)
        ensures
            s@ == SOURCE_ID@,
    {
        SourceId::new(SOURCE_ID)
    }

    /// The endpoint this source ingests from.
    pub fn endpoint(&self) -> (u: &SourceUrl)
        ensures
            u@ == self@,
    {
        &self.endpoint
    }

    /// Convert a parsed record into one evidence value: the overall accuracy
    /// as a fraction, stamped with the fetch time. Fails when the value lies
    /// outside [0, 1].
    pub fn to_evidence(&self, raw: HleRaw, _model: &ModelId) -> (r: Result<Vec<Evidence>, HleError>)
        ensures
            r is Ok <==> 0 <= raw.overall_accuracy <= 1_000_000,
            r matches Ok(v) ==> v@.len() == 1 && describes(
                v@[0],
                SOURCE_ID@,
                "overall-accuracy"@,
                95,
                self@,
                "hle-v1"@,
                decimal_text(raw.overall_accuracy as int),
            ) && is_fraction(v@[0].value, raw.overall_accuracy as int),
            r matches Err(e) ==> e matches HleError::ValidationError(m) && m@
                == "invalid accuracy value: "@ + ValueError::FractionOutOfRange.message(),
    {
        match fraction_evidence(
            SOURCE_ID,
            String::from_str("overall-accuracy"),
            raw.overall_accuracy,
            95,
            &self.endpoint,
            "hle-v1",
        ) {
            Ok(evidence) => Ok(vec![evidence]),
            Err(e) => Err(HleError::ValidationError(validation_message("invalid accuracy value: ", e))),
        }
    }
}

impl Default for HleAdapter {
    /// The adapter for the canonical endpoint.
    fn default() -> (a: Self)
        ensures
            a@ == match url_parse(ENDPOINT@) {
                Ok(u) => u,
                Err(_) => ENDPOINT@,
            },
            a@.len() > 0,
    {
        proof {
            reveal_strlit("https://humlastexam.cais.net/api/results");
        }
        HleAdapter { endpoint: SourceUrl::fixed(ENDPOINT) }
    }
}

} // verus!
