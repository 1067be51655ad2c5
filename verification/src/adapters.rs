//! Upstream source adapters for evidence ingestion.
//!
//! Each upstream benchmark source has an adapter that converts its parsed
//! upstream record into evidence values. Parsing the upstream JSON and
//! fetching it are done by the caller; adapters are pure apart from stamping
//! the fetch time.

pub mod apex_agents;
pub mod arc_prize;
pub mod gdpval;
pub mod gpqa_diamond;
pub mod hle;
pub mod metr;
pub mod osworld;
pub mod re_bench;
pub mod rli;
pub mod swe_bench;

use crate::decimal::{decimal_text, decimal_text_of};
use crate::evidence::{
    BoundedFraction, Evidence, MeasurementId, NonNegativeHours, Provenance, SourceId, SourceUrl,
    SourceValue, ValueError,
};
use crate::text::{concat2, IntoText};
use vstd::prelude::*;

verus! {

/// A UTC time stamp in RFC 3339 form: non-empty, ending in the `Z` of UTC.
pub open spec fn is_utc_stamp(t: Seq<char>) -> bool {
    t.len() > 0 && t.last() == 'Z'
}

/// Calls `chrono::Utc::now()` and renders it in RFC 3339 form with a `Z`
/// suffix (`to_rfc3339_opts`), to whole seconds when `whole_seconds` holds
/// and otherwise to the precision serde uses. The time depends on the clock
/// and is not stated; what is stated is the form every result has: the
/// offset of UTC is written as a final `Z` (chrono writes `Z` for a zero
/// offset when asked to).
#[verifier::external_body]
pub(crate) fn utc_now_rfc3339(whole_seconds: bool) -> (t: String)
    ensures
        is_utc_stamp(t@),
{
    let format = if whole_seconds {
        chrono::SecondsFormat::Secs
    } else {
        chrono::SecondsFormat::AutoSi
    };
    chrono::Utc::now().to_rfc3339_opts(format, true)
}

/// Model identifier for evidence ingestion.
#[derive(Debug, Clone, PartialEq, Eq)]
pub struct ModelId(pub String);

impl ModelId {
    /// Create a new model identifier.
    pub fn new<T: IntoText>(id: T) -> (m: Self)
        ensures
            m.0@ == id.text_view(),
    {
        ModelId(id.into_text())
    }

    /// The model ID as a string slice.
    pub fn as_str(&self) -> (r: &str)
        ensures
            r@ == self.0@,
    {
        self.0.as_str()
    }
}

/// Error type for source adaptation operations.
#[derive(Debug, Clone)]
pub struct AdapterError {
    source_id: String,
    message: String,
}

impl AdapterError {
    /// Create a new adapter error.
    pub fn new<S: IntoText, M: IntoText>(source_id: S, message: M) -> (e: Self)
        ensures
            e.source_view() == source_id.text_view(),
            e.message_view() == message.text_view(),
    {
        AdapterError { source_id: source_id.into_text(), message: message.into_text() }
    }

    /// The source the error concerns.
    pub closed spec fn source_view(&self) -> Seq<char> {
        self.source_id@
    }

    /// The error message.
    pub closed spec fn message_view(&self) -> Seq<char> {
        self.message@
    }

    /// Get the error message.
    pub fn message(&self) -> (r: &str)
        ensures
            r@ == self.message_view(),
    {
        self.message.as_str()
    }

    /// Human-readable description: `adapter error [<source>]: <message>`.
    pub fn to_string(&self) -> (s: String)
        ensures
            s@ == "adapter error ["@ + self.source_view() + "]: "@ + self.message_view(),
    {
        let mut s = String::from_str("adapter error [");
        s.append(self.source_id.as_str());
        s.append("]: ");
        s.append(self.message.as_str());
        s
    }
}

/// `e` reports, under `source` and `measurement`, with the given reliability,
/// from `url`, stamped with a UTC fetch time, with source version `version`,
/// and raw value text `raw`.
pub open spec fn describes(
    e: Evidence,
    source: Seq<char>,
    measurement: Seq<char>,
    reliability: u8,
    url: Seq<char>,
    version: Seq<char>,
    raw: Seq<char>,
) -> bool {
    &&& e.source@ == source
    &&& e.measurement@ == measurement
    &&& e.reliability_percentile == reliability
    &&& e.provenance.source_url@ == url
    &&& is_utc_stamp(e.provenance.fetch_timestamp@)
    &&& e.provenance.source_version is Some
    &&& e.provenance.source_version->0@ == version
    &&& e.provenance.raw_value@ == raw
}

/// `v` is the fraction of `millionths` millionths.
pub open spec fn is_fraction(v: SourceValue, millionths: int) -> bool {
    v matches SourceValue::Fraction(f) && f@ == millionths
}

/// `v` is the hour count of `millionths` millionths of an hour.
pub open spec fn is_hours(v: SourceValue, millionths: int) -> bool {
    v matches SourceValue::Hours(h) && h@ == millionths
}

/// Evidence of one fraction reading, stamped with the current time. Fails
/// when the reading lies outside [0, 1].
pub fn fraction_evidence(
    source: &str,
    measurement: String,
    millionths: i64,
    reliability: u8,
    endpoint: &SourceUrl,
    version: &str,
) -> (r: Result<Evidence, ValueError>)
    ensures
        r is Ok <==> 0 <= millionths <= 1_000_000,
        r matches Ok(e) ==> describes(
            e,
            source@,
            measurement@,
            reliability,
            endpoint@,
            version@,
            decimal_text(millionths as int),
        ) && is_fraction(e.value, millionths as int),
        r matches Err(err) ==> err == ValueError::FractionOutOfRange,
{
    let fraction = match BoundedFraction::new(millionths) {
        Ok(f) => f,
        Err(e) => return Err(e),
    };
    Ok(
        Evidence {
            source: SourceId::new(source),
            measurement: MeasurementId::new(measurement),
            value: SourceValue::Fraction(fraction),
            reliability_percentile: reliability,
            provenance: Provenance {
                source_url: endpoint.duplicate(),
                fetch_timestamp: utc_now_rfc3339(false),
                source_version: Some(String::from_str(version)),
                raw_value: decimal_text_of(millionths),
            },
        },
    )
}

/// Evidence of one hour-count reading, stamped with the current time. Fails
/// when the reading is negative.
pub fn hours_evidence(
    source: &str,
    measurement: String,
    millionths: i64,
    reliability: u8,
    endpoint: &SourceUrl,
    version: &str,
) -> (r: Result<Evidence, ValueError>)
    ensures
        r is Ok <==> 0 <= millionths,
        r matches Ok(e) ==> describes(
            e,
            source@,
            measurement@,
            reliability,
            endpoint@,
            version@,
            decimal_text(millionths as int),
        ) && is_hours(e.value, millionths as int),
        r matches Err(err) ==> err == ValueError::NegativeHours,
{
    let hours = match NonNegativeHours::new(millionths) {
        Ok(h) => h,
        Err(e) => return Err(e),
    };
    Ok(
        Evidence {
            source: SourceId::new(source),
            measurement: MeasurementId::new(measurement),
            value: SourceValue::Hours(hours),
            reliability_percentile: reliability,
            provenance: Provenance {
                source_url: endpoint.duplicate(),
                fetch_timestamp: utc_now_rfc3339(false),
                source_version: Some(String::from_str(version)),
                raw_value: decimal_text_of(millionths),
            },
        },
    )
}

/// Message of a rejected reading: `<prefix><error description>`.
pub fn validation_message(prefix: &str, err: ValueError) -> (s: String)
    ensures
        s@ == prefix@ + err.message(),
{
    let text = err.to_string();
    concat2(prefix, text.as_str())
}

} // verus!
