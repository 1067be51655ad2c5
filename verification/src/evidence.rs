//! Evidence types representing upstream benchmark measurements.
//!
//! Measurement values are held in millionths of their unit (a fraction of
//! one, or hours), so that every threshold of the specification is an exact
//! integer and every comparison is exact.

use crate::text::IntoText;
use vstd::prelude::*;

verus! {

/// Millionths in one whole unit.
pub const MILLIONTHS_PER_UNIT: u64 = 1_000_000;

/// Stable identifier for an upstream source (e.g., "arc-agi-3", "metr-80pct-time-horizon").
#[derive(Debug, Clone, PartialEq, Eq, Hash)]
pub struct SourceId(String);

impl View for SourceId {
    type V = Seq<char>;

    closed spec fn view(&self) -> Seq<char> {
        self.0@
    }
}

impl SourceId {
    /// Create a source identifier from its text.
    pub fn new<T: IntoText>(id: T) -> (s: Self)
        ensures
            s@ == id.text_view(),
    {
        SourceId(id.into_text())
    }

    /// The identifier as a string slice.
    pub fn as_str(&self) -> (r: &str)
        ensures
            r@ == self@,
    {
        self.0.as_str()
    }
}

/// Stable identifier for a measurement within a source.
#[derive(Debug, Clone, PartialEq, Eq, Hash)]
pub struct MeasurementId(String);

impl View for MeasurementId {
    type V = Seq<char>;

    closed spec fn view(&self) -> Seq<char> {
        self.0@
    }
}

impl MeasurementId {
    /// Create a measurement identifier from its text.
    pub fn new<T: IntoText>(id: T) -> (m: Self)
        ensures
            m@ == id.text_view(),
    {
        MeasurementId(id.into_text())
    }

    /// The identifier as a string slice.
    pub fn as_str(&self) -> (r: &str)
        ensures
            r@ == self@,
    {
        self.0.as_str()
    }
}

/// Why a measurement value was rejected.
#[derive(Debug, Clone, Copy, PartialEq, Eq, Structural)]
pub enum ValueError {
    /// A fraction outside [0, 1].
    FractionOutOfRange,
    /// Hours below zero.
    NegativeHours,
}

impl ValueError {
    /// Human-readable description of the error.
    pub fn to_string(&self) -> (s: String)
        ensures
            s@ == self.message(),
    {
        match self {
            ValueError::FractionOutOfRange => String::from_str("fraction must lie in [0.0, 1.0]"),
            ValueError::NegativeHours => String::from_str("hours must be non-negative"),
        }
    }

    /// The text `to_string` produces.
    pub open spec fn message(self) -> Seq<char> {
        match self {
            ValueError::FractionOutOfRange => "fraction must lie in [0.0, 1.0]"@,
            ValueError::NegativeHours => "hours must be non-negative"@,
        }
    }
}

/// Bounded fraction in [0.0, 1.0], held in millionths.
#[derive(Debug, Clone, Copy, PartialEq, Eq, Structural)]
pub struct BoundedFraction {
    millionths: u64,
}

impl View for BoundedFraction {
    type V = nat;

    closed spec fn view(&self) -> nat {
        self.millionths as nat
    }
}

impl BoundedFraction {
    /// Validate a fraction given in millionths; it must lie in [0, 1].
    pub fn new(millionths: i64) -> (r: Result<Self, ValueError>)
        ensures
            (0 <= millionths <= MILLIONTHS_PER_UNIT) <==> r is Ok,
            r matches Ok(f) ==> f@ == millionths,
            r matches Err(e) ==> e == ValueError::FractionOutOfRange,
    {
        if 0 <= millionths && millionths <= 1_000_000 {
            Ok(BoundedFraction { millionths: millionths as u64 })
        } else {
            Err(ValueError::FractionOutOfRange)
        }
    }

    /// The fraction in millionths.
    pub fn value(&self) -> (v: u64)
        ensures
            v == self@,
    {
        self.millionths
    }
}

/// Non-negative hours, held in millionths of an hour.
#[derive(Debug, Clone, Copy, PartialEq, Eq, Structural)]
pub struct NonNegativeHours {
    millionths: u64,
}

impl View for NonNegativeHours {
    type V = nat;

    closed spec fn view(&self) -> nat {
        self.millionths as nat
    }
}

impl NonNegativeHours {
    /// Validate an hour count given in millionths of an hour; it must not be negative.
    pub fn new(millionths: i64) -> (r: Result<Self, ValueError>)
        ensures
            (0 <= millionths) <==> r is Ok,
            r matches Ok(h) ==> h@ == millionths,
            r matches Err(e) ==> e == ValueError::NegativeHours,
    {
        if 0 <= millionths {
            Ok(NonNegativeHours { millionths: millionths as u64 })
        } else {
            Err(ValueError::NegativeHours)
        }
    }

    /// The hours in millionths of an hour.
    pub fn value(&self) -> (v: u64)
        ensures
            v == self@,
    {
        self.millionths
    }
}

/// The value of a measurement, bounded to meaningful ranges.
#[derive(Debug, Clone, Copy, PartialEq, Eq, Structural)]
pub enum SourceValue {
    Fraction(BoundedFraction),
    Hours(NonNegativeHours),
}

impl SourceValue {
    /// The value in millionths of its unit.
    pub open spec fn millionths(self) -> nat {
        match self {
            SourceValue::Fraction(f) => f@,
            SourceValue::Hours(h) => h@,
        }
    }

    /// The value in millionths of its unit.
    pub fn raw_millionths(&self) -> (v: u64)
        ensures
            v == self.millionths(),
    {
        match self {
            SourceValue::Fraction(f) => f.value(),
            SourceValue::Hours(h) => h.value(),
        }
    }
}

/// What `url::Url::parse` yields for an input: the serialization of the
/// parsed URL (`Url::as_str`), or the `Display` text of the parse error.
pub uninterp spec fn url_parse(input: Seq<char>) -> Result<Seq<char>, Seq<char>>;

/// Parses `input` with `url::Url::parse`; on success returns the URL's
/// serialization (`Url::as_str`), on failure the error's `Display` text.
/// The contract ties the result to the name `url_parse` of the input and
/// states of the URL grammar only that a parsed URL's serialization is not
/// empty (it always begins with the scheme and `:`).
#[verifier::external_body]
fn parse_url_text(input: &str) -> (r: Result<String, String>)
    ensures
        match (r, url_parse(input@)) {
            (Ok(s), Ok(t)) => s@ == t && t.len() > 0,
            (Err(s), Err(t)) => s@ == t,
            _ => false,
        },
{
    match url::Url::parse(input) {
        Ok(u) => Ok(u.as_str().to_string()),
        Err(e) => Err(e.to_string()),
    }
}

/// A parsed URL, held as its serialization.
#[derive(Debug, Clone, PartialEq, Eq)]
pub struct SourceUrl(String);

impl View for SourceUrl {
    type V = Seq<char>;

    closed spec fn view(&self) -> Seq<char> {
        self.0@
    }
}

impl SourceUrl {
    /// Parse a URL; the error is the parser's message.
    pub fn parse(input: &str) -> (r: Result<SourceUrl, String>)
        ensures
            match (r, url_parse(input@)) {
                (Ok(u), Ok(t)) => u@ == t && t.len() > 0,
                (Err(s), Err(t)) => s@ == t,
                _ => false,
            },
    {
        match parse_url_text(input) {
            Ok(s) => Ok(SourceUrl(s)),
            Err(e) => Err(e),
        }
    }

    /// The URL of a fixed endpoint: the parsed form of `text`, or `text`
    /// itself should the parser reject it.
    pub fn fixed(text: &str) -> (u: SourceUrl)
        ensures
            u@ == match url_parse(text@) {
                Ok(t) => t,
                Err(_) => text@,
            },
            text@.len() > 0 ==> u@.len() > 0,
    {
        match parse_url_text(text) {
            Ok(s) => SourceUrl(s),
            Err(_) => SourceUrl(String::from_str(text)),
        }
    }

    /// A copy of this URL.
    pub fn duplicate(&self) -> (u: SourceUrl)
        ensures
            u@ == self@,
    {
        SourceUrl(self.0.clone())
    }

    /// The serialized URL.
    pub fn as_str(&self) -> (r: &str)
        ensures
            r@ == self@,
    {
        self.0.as_str()
    }
}

/// Provenance metadata for a measurement.
#[derive(Debug, Clone)]
pub struct Provenance {
    pub source_url: SourceUrl,
    /// RFC 3339 fetch timestamp (UTC).
    pub fetch_timestamp: String,
    pub source_version: Option<String>,
    pub raw_value: String,
}

/// Evidence ingested from one upstream source for one measurement.
#[derive(Debug, Clone)]
pub struct Evidence {
    pub source: SourceId,
    pub measurement: MeasurementId,
    pub value: SourceValue,
    pub reliability_percentile: u8,
    pub provenance: Provenance,
}

} // verus!
