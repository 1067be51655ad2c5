//! Conjunct definitions and status enumeration.

use vstd::prelude::*;

verus! {

/// The four AGI/4 conjuncts, all of which must pass.
#[derive(Debug, Clone, Copy, PartialEq, Eq, Hash, Structural)]
pub enum Conjunct {
    Generality,
    EconomicSubstitutability,
    EnvironmentalTransfer,
    AutonomousAgency,
}

/// Per-conjunct status after evaluation.
#[derive(Debug, Clone, Copy, PartialEq, Eq, Structural)]
pub enum ConjunctStatus {
    Pass,
    Partial,
    Fail,
    InsufficientData,
}

/// Lower-case name of a status as it appears in verdict output.
pub open spec fn status_name(status: ConjunctStatus) -> Seq<char> {
    match status {
        ConjunctStatus::Pass => "pass"@,
        ConjunctStatus::Partial => "partial"@,
        ConjunctStatus::Fail => "fail"@,
        ConjunctStatus::InsufficientData => "insufficient_data"@,
    }
}

/// Convert a status to its lowercase string representation for output
/// (snake case, as the output schema requires).
pub fn status_to_string(status: ConjunctStatus) -> (s: String)
    ensures
        s@ == status_name(status),
{
    match status {
        ConjunctStatus::Pass => String::from_str("pass"),
        ConjunctStatus::Partial => String::from_str("partial"),
        ConjunctStatus::Fail => String::from_str("fail"),
        ConjunctStatus::InsufficientData => String::from_str("insufficient_data"),
    }
}

} // verus!
