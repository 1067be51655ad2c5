//! ARC Prize adapter for generality and environmental transfer conjuncts.
//!
//! Ingests pass@1 accuracy scores from ARC-AGI-2 (private split) and ARC-AGI-3
//! (interactive task private split) from the ARC Prize leaderboard.
//! Returns two Evidence values: one per benchmark.

use crate::adapters::{describes, fraction_evidence, is_fraction, validation_message, ModelId};
use crate::decimal::decimal_text;
use crate::evidence::{url_parse, Evidence, SourceId, SourceUrl, ValueError};
use crate::text::concat2;
use vstd::prelude::*;

verus! {

/// Canonical ARC Prize endpoint.
pub const ENDPOINT: &'static str = "https://arcprize.org/api/leaderboard";
/// Identifier of the leaderboard as a whole (the adapter emits evidence
/// under the two benchmark IDs).
pub const SOURCE_ID: &'static str = "arc-prize-leaderboard";
/// Source ID of the ARC-AGI-2 evidence.
pub const ARC_AGI_2_ID: &'static str = "arc-agi-2";
/// Source ID of the ARC-AGI-3 evidence.
pub const ARC_AGI_3_ID: &'static str = "arc-agi-3";

/// ARC Prize leaderboard data: pass@1 scores for both benchmarks.
#[derive(Debug, Clone)]
pub struct ArcPrizeRaw {
    /// ARC-AGI-2 private split pass@1 score.
    pub arc_agi_2: ArcAgi2Score,
    /// ARC-AGI-3 interactive task private split pass@1 score.
    pub arc_agi_3: ArcAgi3Score,
}

/// ARC-AGI-2 benchmark score.
#[derive(Debug, Clone)]
pub struct ArcAgi2Score {
    /// Pass@1 accuracy on private split, in millionths (0 to 1_000_000).
    pub pass_rate: i64,
}

/// ARC-AGI-3 benchmark score.
#[derive(Debug, Clone)]
pub struct ArcAgi3Score {
    /// Pass@1 accuracy on interactive task private split, in millionths (0 to 1_000_000).
    pub pass_rate: i64,
}

/// Error type for ARC Prize adapter operations.
#[derive(Debug, Clone)]
pub enum ArcPrizeError {
    /// JSON parsing failed.
    ParseError(String),
    /// Value validation failed (e.g., out-of-bounds score).
    ValidationError(String),
}

impl ArcPrizeError {
    /// The text `to_string` produces.
    pub open spec fn message(&self) -> Seq<char> {
        match self {
            ArcPrizeError::ParseError(m) => "ARC Prize parse error: "@ + m@,
            ArcPrizeError::ValidationError(m) => "ARC Prize validation error: "@ + m@,
        }
    }

    /// Human-readable description of the error.
    pub fn to_string(&self) -> (s: String)
        ensures
            s@ == self.message(),
    {
        match self {
            ArcPrizeError::ParseError(m) => concat2("ARC Prize parse error: ", m.as_str()),
            ArcPrizeError::ValidationError(m) => concat2("ARC Prize validation error: ", m.as_str()),
        }
    }
}

/// ARC Prize adapter for both ARC-AGI-2 and ARC-AGI-3 benchmarks.
pub struct ArcPrizeAdapter {
    /// Canonical ARC Prize leaderboard endpoint.
    endpoint: SourceUrl,
}

impl View for ArcPrizeAdapter {
    type V = Seq<char>;

    /// The endpoint the adapter ingests from.
    closed spec fn view(&self) -> Seq<char> {
        self.endpoint@
    }
}

impl ArcPrizeAdapter {
    /// Create a new ARC Prize adapter with the canonical endpoint.
    pub fn new() -> (r: Result<Self, ArcPrizeError>)
        ensures
            match (r, url_parse(ENDPOINT@)) {
                (Ok(a), Ok(u)) => a@ == u && a@.len() > 0,
                (Err(ArcPrizeError::ParseError(m)), Err(e)) => m@ == "invalid endpoint URL: "@ + e,
                _ => false,
            },
    {
        match SourceUrl::parse(ENDPOINT) {
            Ok(endpoint) => Ok(ArcPrizeAdapter { endpoint }),
            Err(e) => Err(ArcPrizeError::ParseError(concat2("invalid endpoint URL: ", e.as_str()))),
        }
    }

    /// Create a ARC Prize adapter with a custom endpoint (for testing).
    pub fn with_endpoint(endpoint: SourceUrl) -> (a: Self)
        ensures
            a@ == endpoint@,
    {
        ArcPrizeAdapter { endpoint }
    }

    /// Stable identifier for this source. The adapter covers two sources and
    /// emits evidence under their own IDs; this names the leaderboard.
    pub fn id(&self) -> (s: SourceId)
        ensures
            s@ == SOURCE_ID@,
    {
        SourceId::new(SOURCE_ID)
    }

    /// The endpoint this source ingests from.
    pub fn endpoint(&self) -> (u: &SourceUrl)
        ensures
            u@ == self@,
    {
        &self.endpoint
    }

    /// Convert a parsed record into two evidence values, ARC-AGI-2 then
    /// ARC-AGI-3, each a fraction stamped with the fetch time. Fails when
    /// either score lies outside [0, 1] (ARC-AGI-2 is checked first).
    pub fn to_evidence(&self, raw: ArcPrizeRaw, _model: &ModelId) -> (r: Result<
        Vec<Evidence>,
        ArcPrizeError,
    >)
        ensures
            r is Ok <==> 0 <= raw.arc_agi_2.pass_rate <= 1_000_000 && 0 <= raw.arc_agi_3.pass_rate
                <= 1_000_000,
            r matches Ok(v) ==> v@.len() == 2 && describes(
                v@[0],
                ARC_AGI_2_ID@,
                "pass@1-private-split"@,
                95,
                self@,
                "arc-prize-v1"@,
                decimal_text(raw.arc_agi_2.pass_rate as int),
            ) && is_fraction(v@[0].value, raw.arc_agi_2.pass_rate as int) && describes(
                v@[1],
                ARC_AGI_3_ID@,
                "pass@1-interactive-private"@,
                80,
                self@,
                "arc-prize-v1"@,
                decimal_text(raw.arc_agi_3.pass_rate as int),
            ) && is_fraction(v@[1].value, raw.arc_agi_3.pass_rate as int),
            r matches Err(e) ==> e matches ArcPrizeError::ValidationError(m) && m@ == (if 0
                <= raw.arc_agi_2.pass_rate <= 1_000_000 {
                "ARC-AGI-3 validation: "@
            } else {
                "ARC-AGI-2 validation: "@
            }) + ValueError::FractionOutOfRange.message(),
    {
        let mut evidence_vec: Vec<Evidence> = Vec::new();
        // Validate and emit ARC-AGI-2 evidence
        match fraction_evidence(
            ARC_AGI_2_ID,
            String::from_str("pass@1-private-split"),
            raw.arc_agi_2.pass_rate,
            95,
            &self.endpoint,
            "arc-prize-v1",
        ) {
            Ok(evidence) => evidence_vec.push(evidence),
            Err(e) => {
                return Err(
                    ArcPrizeError::ValidationError(validation_message("ARC-AGI-2 validation: ", e)),
                )
            },
        }
        // Validate and emit ARC-AGI-3 evidence (exploration variance lowers its reliability)
        match fraction_evidence(
            ARC_AGI_3_ID,
            String::from_str("pass@1-interactive-private"),
            raw.arc_agi_3.pass_rate,
            80,
            &self.endpoint,
            "arc-prize-v1",
        ) {
            Ok(evidence) => evidence_vec.push(evidence),
            Err(e) => {
                return Err(
                    ArcPrizeError::ValidationError(validation_message("ARC-AGI-3 validation: ", e)),
                )
            },
        }
        Ok(evidence_vec)
    }
}

impl Default for ArcPrizeAdapter {
    /// The adapter for the canonical endpoint.
    fn default() -> (a: Self)
        ensures
            a@ == match url_parse(ENDPOINT@) {
                Ok(u) => u,
                Err(_) => ENDPOINT@,
            },
            a@.len() > 0,
    {
        proof {
            reveal_strlit("https://arcprize.org/api/leaderboard");
        }
        ArcPrizeAdapter { endpoint: SourceUrl::fixed(ENDPOINT) }
    }
}

} // verus!
