//! Fixture-based evidence: frozen upstream records converted through the
//! adapters.
//!
//! A fixture directory holds one subdirectory per source, named after the
//! source, with a JSON record inside. Reading the directory and the JSON is
//! done by the caller; this module says which adapter a directory belongs to
//! and converts a record of that adapter into evidence.

use crate::adapters::swe_bench::measurement_name;
use crate::adapters::{
    apex_agents, arc_prize, describes, gdpval, gpqa_diamond, hle, is_fraction, is_hours, metr,
    osworld, re_bench, rli, swe_bench, ModelId,
};
use crate::consistency::provenance_complete;
use crate::decimal::{decimal_text, digits};
use crate::evidence::{url_parse, Evidence, ValueError};
use crate::text::concat3;
use vstd::prelude::*;

verus! {

/// The sources a fixture directory can hold.
#[derive(Debug, Clone, Copy, PartialEq, Eq, Structural)]
pub enum FixtureSource {
    Metr,
    ArcPrize,
    Hle,
    GpqaDiamond,
    Gdpval,
    Rli,
    ApexAgents,
    Osworld,
    ReBench,
    SweBench,
}

/// The source whose fixtures a directory of this name holds.
pub open spec fn fixture_source_of(name: Seq<char>) -> Option<FixtureSource> {
    if name == "metr"@ {
        Some(FixtureSource::Metr)
    } else if name == "arc-prize"@ {
        Some(FixtureSource::ArcPrize)
    } else if name == "hle"@ {
        Some(FixtureSource::Hle)
    } else if name == "gpqa-diamond"@ {
        Some(FixtureSource::GpqaDiamond)
    } else if name == "gdpval"@ {
        Some(FixtureSource::Gdpval)
    } else if name == "rli"@ {
        Some(FixtureSource::Rli)
    } else if name == "apex-agents"@ {
        Some(FixtureSource::ApexAgents)
    } else if name == "osworld"@ {
        Some(FixtureSource::Osworld)
    } else if name == "re-bench"@ {
        Some(FixtureSource::ReBench)
    } else if name == "swe-bench"@ {
        Some(FixtureSource::SweBench)
    } else {
        None
    }
}

/// The source whose fixtures the directory `dir_name` holds, if any.
pub fn fixture_source(dir_name: &str) -> (r: Option<FixtureSource>)
    ensures
        r == fixture_source_of(dir_name@),
{
    if crate::text::text_eq(dir_name, "metr") {
        Some(FixtureSource::Metr)
    } else if crate::text::text_eq(dir_name, "arc-prize") {
        Some(FixtureSource::ArcPrize)
    } else if crate::text::text_eq(dir_name, "hle") {
        Some(FixtureSource::Hle)
    } else if crate::text::text_eq(dir_name, "gpqa-diamond") {
        Some(FixtureSource::GpqaDiamond)
    } else if crate::text::text_eq(dir_name, "gdpval") {
        Some(FixtureSource::Gdpval)
    } else if crate::text::text_eq(dir_name, "rli") {
        Some(FixtureSource::Rli)
    } else if crate::text::text_eq(dir_name, "apex-agents") {
        Some(FixtureSource::ApexAgents)
    } else if crate::text::text_eq(dir_name, "osworld") {
        Some(FixtureSource::Osworld)
    } else if crate::text::text_eq(dir_name, "re-bench") {
        Some(FixtureSource::ReBench)
    } else if crate::text::text_eq(dir_name, "swe-bench") {
        Some(FixtureSource::SweBench)
    } else {
        None
    }
}

impl FixtureSource {
    /// The name of the source in messages.
    pub open spec fn label_of(self) -> Seq<char> {
        match self {
            FixtureSource::Metr => "METR"@,
            FixtureSource::ArcPrize => "ARC Prize"@,
            FixtureSource::Hle => "HLE"@,
            FixtureSource::GpqaDiamond => "GPQA Diamond"@,
            FixtureSource::Gdpval => "GDPval"@,
            FixtureSource::Rli => "RLI"@,
            FixtureSource::ApexAgents => "APEX-Agents"@,
            FixtureSource::Osworld => "OSWorld"@,
            FixtureSource::ReBench => "RE-Bench"@,
            FixtureSource::SweBench => "SWE-Bench"@,
        }
    }

    /// The name of the source in messages.
    pub fn label(&self) -> (s: &'static str)
        ensures
            s@ == self.label_of(),
    {
        match self {
            FixtureSource::Metr => "METR",
            FixtureSource::ArcPrize => "ARC Prize",
            FixtureSource::Hle => "HLE",
            FixtureSource::GpqaDiamond => "GPQA Diamond",
            FixtureSource::Gdpval => "GDPval",
            FixtureSource::Rli => "RLI",
            FixtureSource::ApexAgents => "APEX-Agents",
            FixtureSource::Osworld => "OSWorld",
            FixtureSource::ReBench => "RE-Bench",
            FixtureSource::SweBench => "SWE-Bench",
        }
    }
}

/// A parsed fixture record of one source.
#[derive(Debug, Clone)]
pub enum FixtureRecord {
    Metr(metr::MetrRaw),
    ArcPrize(arc_prize::ArcPrizeRaw),
    Hle(hle::HleRaw),
    GpqaDiamond(gpqa_diamond::GpqaDiamondRaw),
    Gdpval(gdpval::GdpvalRaw),
    Rli(rli::RliRaw),
    ApexAgents(apex_agents::ApexAgentsRaw),
    Osworld(osworld::OsworldRaw),
    ReBench(re_bench::ReBenchRaw),
    SweBench(swe_bench::SweBenchRaw),
}

impl FixtureRecord {
    /// The source the record comes from.
    pub open spec fn source_of(self) -> FixtureSource {
        match self {
            FixtureRecord::Metr(_) => FixtureSource::Metr,
            FixtureRecord::ArcPrize(_) => FixtureSource::ArcPrize,
            FixtureRecord::Hle(_) => FixtureSource::Hle,
            FixtureRecord::GpqaDiamond(_) => FixtureSource::GpqaDiamond,
            FixtureRecord::Gdpval(_) => FixtureSource::Gdpval,
            FixtureRecord::Rli(_) => FixtureSource::Rli,
            FixtureRecord::ApexAgents(_) => FixtureSource::ApexAgents,
            FixtureRecord::Osworld(_) => FixtureSource::Osworld,
            FixtureRecord::ReBench(_) => FixtureSource::ReBench,
            FixtureRecord::SweBench(_) => FixtureSource::SweBench,
        }
    }
}

/// The endpoint URL of an adapter made with `default()`.
pub open spec fn default_endpoint(text: Seq<char>) -> Seq<char> {
    match url_parse(text) {
        Ok(u) => u,
        Err(_) => text,
    }
}

/// A fraction in millionths lies in [0, 1].
pub open spec fn in_unit(m: i64) -> bool {
    0 <= m <= 1_000_000
}

/// The record holds values its adapter accepts.
pub open spec fn record_valid(record: FixtureRecord) -> bool {
    match record {
        FixtureRecord::Metr(r) => 0 <= r.value,
        FixtureRecord::ArcPrize(r) => in_unit(r.arc_agi_2.pass_rate) && in_unit(r.arc_agi_3.pass_rate),
        FixtureRecord::Hle(r) => in_unit(r.overall_accuracy),
        FixtureRecord::GpqaDiamond(r) => in_unit(r.accuracy),
        FixtureRecord::Gdpval(r) => in_unit(r.win_tie_rate),
        FixtureRecord::Rli(r) => in_unit(r.completion_rate),
        FixtureRecord::ApexAgents(r) => in_unit(r.task_completion_rate),
        FixtureRecord::Osworld(r) => in_unit(r.task_completion_rate),
        FixtureRecord::ReBench(r) => in_unit(r.task_success_rate),
        FixtureRecord::SweBench(r) => r.pass_at_k >= 5 && in_unit(r.success_rate),
    }
}

/// `v` is the single fraction reading an adapter with this identity and
/// canonical endpoint makes of `m` millionths.
pub open spec fn one_fraction(
    v: Seq<Evidence>,
    source: Seq<char>,
    measurement: Seq<char>,
    reliability: u8,
    endpoint: Seq<char>,
    version: Seq<char>,
    m: i64,
) -> bool {
    &&& v.len() == 1
    &&& describes(
        v[0],
        source,
        measurement,
        reliability,
        default_endpoint(endpoint),
        version,
        decimal_text(m as int),
    )
    &&& is_fraction(v[0].value, m as int)
}

/// `v` is the evidence the record's adapter, made with `default()`, makes of it.
pub open spec fn record_evidence(record: FixtureRecord, v: Seq<Evidence>) -> bool {
    match record {
        FixtureRecord::Metr(r) => {
            &&& v.len() == 1
            &&& describes(
                v[0],
                metr::SOURCE_ID@,
                "80pct-time-horizon"@,
                80,
                default_endpoint(metr::ENDPOINT@),
                "metr-v1"@,
                decimal_text(r.value as int),
            )
            &&& is_hours(v[0].value, r.value as int)
        },
        FixtureRecord::ArcPrize(r) => {
            &&& v.len() == 2
            &&& describes(
                v[0],
                arc_prize::ARC_AGI_2_ID@,
                "pass@1-private-split"@,
                95,
                default_endpoint(arc_prize::ENDPOINT@),
                "arc-prize-v1"@,
                decimal_text(r.arc_agi_2.pass_rate as int),
            )
            &&& is_fraction(v[0].value, r.arc_agi_2.pass_rate as int)
            &&& describes(
                v[1],
                arc_prize::ARC_AGI_3_ID@,
                "pass@1-interactive-private"@,
                80,
                default_endpoint(arc_prize::ENDPOINT@),
                "arc-prize-v1"@,
                decimal_text(r.arc_agi_3.pass_rate as int),
            )
            &&& is_fraction(v[1].value, r.arc_agi_3.pass_rate as int)
        },
        FixtureRecord::Hle(r) => one_fraction(
            v,
            hle::SOURCE_ID@,
            "overall-accuracy"@,
            95,
            hle::ENDPOINT@,
            "hle-v1"@,
            r.overall_accuracy,
        ),
        FixtureRecord::GpqaDiamond(r) => one_fraction(
            v,
            gpqa_diamond::SOURCE_ID@,
            "accuracy"@,
            95,
            gpqa_diamond::ENDPOINT@,
            "gpqa-diamond-v1"@,
            r.accuracy,
        ),
        FixtureRecord::Gdpval(r) => one_fraction(
            v,
            gdpval::SOURCE_ID@,
            "win-tie-rate"@,
            95,
            gdpval::ENDPOINT@,
            "gdpval-v1"@,
            r.win_tie_rate,
        ),
        FixtureRecord::Rli(r) => one_fraction(
            v,
            rli::SOURCE_ID@,
            "completion-rate"@,
            95,
            rli::ENDPOINT@,
            "rli-v1"@,
            r.completion_rate,
        ),
        FixtureRecord::ApexAgents(r) => one_fraction(
            v,
            apex_agents::SOURCE_ID@,
            "task-completion-rate"@,
            95,
            apex_agents::ENDPOINT@,
            "apex-agents-v1"@,
            r.task_completion_rate,
        ),
        FixtureRecord::Osworld(r) => one_fraction(
            v,
            osworld::SOURCE_ID@,
            "task-completion-rate"@,
            80,
            osworld::ENDPOINT@,
            "osworld-v1"@,
            r.task_completion_rate,
        ),
        FixtureRecord::ReBench(r) => one_fraction(
            v,
            re_bench::SOURCE_ID@,
            "task-success-rate"@,
            80,
            re_bench::ENDPOINT@,
            "re-bench-v1"@,
            r.task_success_rate,
        ),
        FixtureRecord::SweBench(r) => one_fraction(
            v,
            swe_bench::EVIDENCE_SOURCE_ID@,
            measurement_name(r.pass_at_k),
            80,
            swe_bench::ENDPOINT@,
            "swe-bench-verified-v1"@,
            r.success_rate,
        ),
    }
}

/// The adapter's error text for a record it rejects.
pub open spec fn conversion_error(record: FixtureRecord) -> Seq<char> {
    let out_of_range = ValueError::FractionOutOfRange.message();
    match record {
        FixtureRecord::Metr(_) => "METR validation error: "@ + ("invalid hours value: "@
            + ValueError::NegativeHours.message()),
        FixtureRecord::ArcPrize(r) => "ARC Prize validation error: "@ + ((if in_unit(
            r.arc_agi_2.pass_rate,
        ) {
            "ARC-AGI-3 validation: "@
        } else {
            "ARC-AGI-2 validation: "@
        }) + out_of_range),
        FixtureRecord::Hle(_) => "HLE validation error: "@ + ("invalid accuracy value: "@
            + out_of_range),
        FixtureRecord::GpqaDiamond(_) => "GPQA Diamond validation error: "@ + (
        "invalid accuracy value: "@ + out_of_range),
        FixtureRecord::Gdpval(_) => "GDPval validation error: "@ + ("invalid win+tie rate value: "@
            + out_of_range),
        FixtureRecord::Rli(_) => "RLI validation error: "@ + ("invalid completion rate value: "@
            + out_of_range),
        FixtureRecord::ApexAgents(_) => "APEX-Agents validation error: "@ + (
        "invalid task completion rate value: "@ + out_of_range),
        FixtureRecord::Osworld(_) => "OSWorld validation error: "@ + (
        "invalid task completion rate value: "@ + out_of_range),
        FixtureRecord::ReBench(_) => "RE-Bench validation error: "@ + (
        "invalid task success rate value: "@ + out_of_range),
        FixtureRecord::SweBench(r) => "SWE-bench validation error: "@ + if r.pass_at_k < 5 {
            "pass@"@ + digits(r.pass_at_k as nat)
                + " not acceptable; SPEC requires pass@k where k >= 5"@
        } else {
            "invalid success rate value: "@ + out_of_range
        },
    }
}

/// `failed to convert <label> evidence: <error>`.
fn conversion_warning(label: &str, error: String) -> (w: String)
    ensures
        w@ == "failed to convert "@ + label@ + " evidence: "@ + error@,
{
    let mut w = concat3("failed to convert ", label, " evidence: ");
    w.append(error.as_str());
    w
}

/// Convert a fixture record into evidence with its source's adapter (made
/// for the canonical endpoint). When the adapter rejects the record, the
/// result is the warning text: `failed to convert <source> evidence: <error>`.
pub fn fixture_evidence(record: FixtureRecord, model: &ModelId) -> (r: Result<Vec<Evidence>, String>)
    ensures
        r is Ok <==> record_valid(record),
        r matches Ok(v) ==> record_evidence(record, v@),
        r matches Ok(v) ==> forall|i: int|
            0 <= i < v@.len() ==> provenance_complete(#[trigger] v@[i]),
        r matches Err(w) ==> w@ == "failed to convert "@ + record.source_of().label_of()
            + " evidence: "@ + conversion_error(record),
{
    match record {
        FixtureRecord::Metr(raw) => match metr::MetrAdapter::default().to_evidence(raw, model) {
            Ok(v) => Ok(v),
            Err(e) => Err(conversion_warning("METR", e.to_string())),
        },
        FixtureRecord::ArcPrize(raw) => match arc_prize::ArcPrizeAdapter::default().to_evidence(raw, model) {
            Ok(v) => Ok(v),
            Err(e) => Err(conversion_warning("ARC Prize", e.to_string())),
        },
        FixtureRecord::Hle(raw) => match hle::HleAdapter::default().to_evidence(raw, model) {
            Ok(v) => Ok(v),
            Err(e) => Err(conversion_warning("HLE", e.to_string())),
        },
        FixtureRecord::GpqaDiamond(raw) => match gpqa_diamond::GpqaDiamondAdapter::default().to_evidence(raw, model) {
            Ok(v) => Ok(v),
            Err(e) => Err(conversion_warning("GPQA Diamond", e.to_string())),
        },
        FixtureRecord::Gdpval(raw) => match gdpval::GdpvalAdapter::default().to_evidence(raw, model) {
            Ok(v) => Ok(v),
            Err(e) => Err(conversion_warning("GDPval", e.to_string())),
        },
        FixtureRecord::Rli(raw) => match rli::RliAdapter::default().to_evidence(raw, model) {
            Ok(v) => Ok(v),
            Err(e) => Err(conversion_warning("RLI", e.to_string())),
        },
        FixtureRecord::ApexAgents(raw) => match apex_agents::ApexAgentsAdapter::default().to_evidence(raw, model) {
            Ok(v) => Ok(v),
            Err(e) => Err(conversion_warning("APEX-Agents", e.to_string())),
        },
        FixtureRecord::Osworld(raw) => match osworld::OsworldAdapter::default().to_evidence(raw, model) {
            Ok(v) => Ok(v),
            Err(e) => Err(conversion_warning("OSWorld", e.to_string())),
        },
        FixtureRecord::ReBench(raw) => match re_bench::ReBenchAdapter::default().to_evidence(raw, model) {
            Ok(v) => Ok(v),
            Err(e) => Err(conversion_warning("RE-Bench", e.to_string())),
        },
        FixtureRecord::SweBench(raw) => match swe_bench::SweBenchAdapter::default().to_evidence(raw, model) {
            Ok(v) => Ok(v),
            Err(e) => Err(conversion_warning("SWE-Bench", e.to_string())),
        },
    }
}

} // verus!
