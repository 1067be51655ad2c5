//! GDPval (Artificial Analysis) adapter for economic substitutability conjunct.
//!
//! Ingests win+tie rate from the GDPval benchmark.
//! Returns a single Fraction value representing performance vs industry experts.

use crate::adapters::{describes, fraction_evidence, is_fraction, validation_message, ModelId};
use crate::decimal::decimal_text;
use crate::evidence::{url_parse, Evidence, SourceId, SourceUrl, ValueError};
use crate::text::concat2;
use vstd::prelude::*;

verus! {

/// Canonical GDPval endpoint.
pub const ENDPOINT: &'static str = "https://artificial-analysis.com/api/gdpval";
/// Source ID of the GDPval evidence.
pub const SOURCE_ID: &'static str = "gdpval";

/// GDPval benchmark data: win+tie rate vs industry experts.
#[derive(Debug, Clone)]
pub struct GdpvalRaw {
    /// Win+tie rate as a fraction, in millionths (0 to 1_000_000).
    pub win_tie_rate: i64,
}

/// Error type for GDPval adapter operations.
#[derive(Debug, Clone)]
pub enum GdpvalError {
    /// JSON parsing failed.
    ParseError(String),
    /// Value validation failed (e.g., out-of-bounds rate).
    ValidationError(String),
}

impl GdpvalError {
    /// The text `to_string` produces.
    pub open spec fn message(&self) -> Seq<char> {
        match self {
            GdpvalError::ParseError(m) => "GDPval parse error: "@ + m@,
            GdpvalError::ValidationError(m) => "GDPval validation error: "@ + m@,
        }
    }

    /// Human-readable description of the error.
    pub fn to_string(&self) -> (s: String)
        ensures
            s@ == self.message(),
    {
        match self {
            GdpvalError::ParseError(m) => concat2("GDPval parse error: ", m.as_str()),
            GdpvalError::ValidationError(m) => concat2("GDPval validation error: ", m.as_str()),
        }
    }
}

/// GDPval adapter for the win+tie rate measurement.
pub struct GdpvalAdapter {
    /// Canonical GDPval endpoint.
    endpoint: SourceUrl,
}

impl View for GdpvalAdapter {
    type V = Seq<char>;

    /// The endpoint the adapter ingests from.
    closed spec fn view(&self) -> Seq<char> {
        self.endpoint@
    }
}

impl GdpvalAdapter {
    /// Create a new GDPval adapter with the canonical endpoint.
    pub fn new() -> (r: Result<Self, GdpvalError>)
        ensures
            match (r, url_parse(ENDPOINT@)) {
                (Ok(a), Ok(u)) => a@ == u && a@.len() > 0,
                (Err(GdpvalError::ParseError(m)), Err(e)) => m@ == "invalid endpoint URL: "@ + e,
                _ => false,
            },
    {
        match SourceUrl::parse(ENDPOINT) {
            Ok(endpoint) => Ok(GdpvalAdapter { endpoint }),
            Err(e) => Err(GdpvalError::ParseError(concat2("invalid endpoint URL: ", e.as_str()))),
        }
    }

    /// Create a GDPval adapter with a custom endpoint (for testing).
    pub fn with_endpoint(endpoint: SourceUrl) -> (a: Self)
        ensures
            a@ == endpoint@,
    {
        GdpvalAdapter { endpoint }
    }

    /// Stable identifier for this source.
    pub fn id(&self) -> (s: SourceId)
        ensures
            s@ == SOURCE_ID@,
    {
        SourceId::new(SOURCE_ID)
    }

    /// The endpoint this source ingests from.
    pub fn endpoint(&self) -> (u: &SourceUrl)
        ensures
            u@ == self@,
    {
        &self.endpoint
    }

    /// Convert a parsed record into one evidence value: the win+tie rate
    /// as a fraction, stamped with the fetch time. Fails when the value lies
    /// outside [0, 1].
    pub fn to_evidence(&self, raw: GdpvalRaw, _model: &ModelId) -> (r: Result<Vec<Evidence>, GdpvalError>)
        ensures
            r is Ok <==> 0 <= raw.win_tie_rate <= 1_000_000,
            r matches Ok(v) ==> v@.len() == 1 && describes(
                v@[0],
                SOURCE_ID@,
                "win-tie-rate"@,
                95,
                self@,
                "gdpval-v1"@,
                decimal_text(raw.win_tie_rate as int),
            ) && is_fraction(v@[0].value, raw.win_tie_rate as int),
            r matches Err(e) ==> e matches GdpvalError::ValidationError(m) && m@
                == "invalid win+tie rate value: "@ + ValueError::FractionOutOfRange.message(),
    {
        match fraction_evidence(
            SOURCE_ID,
            String::from_str("win-tie-rate"),
            raw.win_tie_rate,
            95,
            &self.endpoint,
            "gdpval-v1",
        ) {
            Ok(evidence) => Ok(vec![evidence]),
            Err(e) => Err(GdpvalError::ValidationError(validation_message("invalid win+tie rate value: ", e))),
        }
    }
}

impl Default for GdpvalAdapter {
    /// The adapter for the canonical endpoint.
    fn default() -> (a: Self)
        ensures
            a@ == match url_parse(ENDPOINT@) {
                Ok(u) => u,
                Err(_) => ENDPOINT@,
            },
            a@.len() > 0,
    {
        proof {
            reveal_strlit("https://artificial-analysis.com/api/gdpval");
        }
        GdpvalAdapter { endpoint: SourceUrl::fixed(ENDPOINT) }
    }
}

} // verus!
