//! Markdown report rendering for verdicts.
//!
//! Converts a verdict output into human-readable Markdown with provenance
//! links, evidence tables, and per-conjunct sections.

use crate::decimal::{two_decimals_text, two_decimals_text_of};
use crate::schema::{ConjunctReport, EvidenceReport, VerdictOutput};
use crate::text::texts;
use vstd::prelude::*;

verus! {

/// What `str::to_uppercase` returns for `s` (Unicode upper-casing).
pub uninterp spec fn uppercase_of(s: Seq<char>) -> Seq<char>;

/// Calls `str::to_uppercase`. The contract names the result
/// `uppercase_of(s)`; the Unicode case tables are not stated.
#[verifier::external_body]
fn to_uppercase(s: &str) -> (u: String)
    ensures
        u@ == uppercase_of(s@),
{
    s.to_uppercase()
}

/// The parts concatenated in order.
pub open spec fn flat(parts: Seq<Seq<char>>) -> Seq<char>
    decreases parts.len(),
{
    if parts.len() == 0 {
        Seq::empty()
    } else {
        flat(parts.drop_last()) + parts.last()
    }
}

/// `- <item>` lines.
pub open spec fn bullets(items: Seq<Seq<char>>) -> Seq<char> {
    flat(items.map_values(|t: Seq<char>| "- "@ + t + "\n"@))
}

/// Text of an optional threshold: two decimals, or a dash.
pub open spec fn threshold_text(t: Option<i64>) -> Seq<char> {
    match t {
        Some(v) => two_decimals_text(v as int),
        None => "—"@,
    }
}

/// Mark of an optional pass result: a check mark, a cross, or a dash.
pub open spec fn passes_text(p: Option<bool>) -> Seq<char> {
    match p {
        Some(true) => "✓"@,
        Some(false) => "✗"@,
        None => "—"@,
    }
}

/// One row of the evidence table.
pub open spec fn evidence_row(e: EvidenceReport) -> Seq<char> {
    "| "@ + e.source@ + " | "@ + e.measurement@ + " | "@ + e.value@ + " | "@ + threshold_text(
        e.threshold,
    ) + " | "@ + passes_text(e.passes_threshold) + " |\n"@
}

/// One provenance line: the source and a link to its URL.
pub open spec fn provenance_line(e: EvidenceReport) -> Seq<char> {
    "**"@ + e.source@ + ":** ["@ + e.measurement@ + "]("@ + e.provenance.source_url@ + ")\n"@
}

/// The evidence table and provenance list of a conjunct (empty without evidence).
pub open spec fn evidence_block(es: Seq<EvidenceReport>) -> Seq<char> {
    if es.len() == 0 {
        Seq::empty()
    } else {
        "#### Evidence\n\n"@ + "| Source | Measurement | Value | Threshold | Passes |\n"@
            + "|--------|-------------|-------|-----------|--------|\n"@ + flat(
            es.map_values(|e: EvidenceReport| evidence_row(e)),
        ) + "\n"@ + "#### Evidence Provenance\n\n"@ + flat(
            es.map_values(|e: EvidenceReport| provenance_line(e)),
        ) + "\n"@
    }
}

/// The section of one conjunct.
pub open spec fn conjunct_section(name: Seq<char>, c: ConjunctReport) -> Seq<char> {
    "### "@ + name + "\n\n"@ + "**Status:** `"@ + c.status@ + "`\n\n"@ + evidence_block(
        c.evidence@,
    ) + match c.margins {
        Some(m) => "#### Margins\n\n- **Min:** "@ + two_decimals_text(m.min as int)
            + "\n- **Max:** "@ + two_decimals_text(m.max as int) + "\n\n"@,
        None => Seq::empty(),
    }
}

/// The metadata section.
pub open spec fn metadata_section(v: VerdictOutput) -> Seq<char> {
    "## Evaluation Metadata\n\n"@ + "**Model:** "@ + v.model.id@ + "\n"@ + match v.model.provider {
        Some(p) => "**Provider:** "@ + p@ + "\n"@,
        None => Seq::empty(),
    } + match v.model.version_or_date {
        Some(d) => "**Version/Date:** "@ + d@ + "\n"@,
        None => Seq::empty(),
    } + "**Specification Version:** "@ + v.spec_version@ + "\n"@ + "**Runner Version:** "@
        + v.runner_version@ + "\n"@ + "**Run Timestamp:** "@ + v.run_timestamp@ + "\n"@ + "\n"@
}

/// The per-conjunct section.
pub open spec fn conjuncts_section(v: VerdictOutput) -> Seq<char> {
    "## Per-Conjunct Evaluation\n\n"@ + conjunct_section("Generality"@, v.conjuncts.generality)
        + conjunct_section("Economic Substitutability"@, v.conjuncts.economic_substitutability)
        + conjunct_section("Environmental Transfer"@, v.conjuncts.environmental_transfer)
        + conjunct_section("Autonomous Agency"@, v.conjuncts.autonomous_agency)
}

/// The consistency check section.
pub open spec fn consistency_section(v: VerdictOutput) -> Seq<char> {
    "## Consistency Check\n\n"@ + "**Status:** `"@ + v.consistency_check.status@ + "`\n\n"@ + (if v.consistency_check.failed_rules@.len()
        == 0 {
        Seq::empty()
    } else {
        "**Failed Rules:**\n\n"@ + bullets(texts(v.consistency_check.failed_rules@)) + "\n"@
    }) + match v.consistency_check.detail {
        Some(d) => "**Detail:** "@ + d@ + "\n\n"@,
        None => Seq::empty(),
    }
}

/// The verdict summary section.
pub open spec fn summary_section(v: VerdictOutput) -> Seq<char> {
    "## Verdict\n\n"@ + "**Result:** `"@ + uppercase_of(v.verdict@) + "`\n\n"@ + if v.verdict_reasons@.len()
        == 0 {
        Seq::empty()
    } else {
        "**Reasons:**\n\n"@ + bullets(texts(v.verdict_reasons@)) + "\n"@
    }
}

/// The known gaps section (empty without gaps).
pub open spec fn gaps_section(v: VerdictOutput) -> Seq<char> {
    if v.known_gaps_acknowledged@.len() == 0 {
        Seq::empty()
    } else {
        "## Known Gaps Acknowledged\n\n"@ + bullets(texts(v.known_gaps_acknowledged@)) + "\n"@
    }
}

/// The whole Markdown report.
pub open spec fn rendered(v: VerdictOutput) -> Seq<char> {
    "# AGI/4 Attestation Verdict\n\n"@ + metadata_section(v) + conjuncts_section(v)
        + consistency_section(v) + summary_section(v) + gaps_section(v)
}

proof fn lemma_flat_step(parts: Seq<Seq<char>>, i: int)
    requires
        0 <= i < parts.len(),
    ensures
        flat(parts.take(i + 1)) == flat(parts.take(i)) + parts[i],
{
    assert(parts.take(i + 1).drop_last() =~= parts.take(i));
}

/// `- <item>` lines.
fn bullets_text(items: &Vec<String>) -> (out: String)
    ensures
        out@ == bullets(texts(items@)),
{
    let ghost parts = texts(items@).map_values(|t: Seq<char>| "- "@ + t + "\n"@);
    let mut out = String::new();
    let mut i: usize = 0;
    assert(parts.take(0) =~= Seq::<Seq<char>>::empty());
    while i < items.len()
        invariant
            i <= items@.len(),
            parts.len() == items@.len(),
            parts == texts(items@).map_values(|t: Seq<char>| "- "@ + t + "\n"@),
            out@ == flat(parts.take(i as int)),
        decreases items@.len() - i,
    {
        proof {
            lemma_flat_step(parts, i as int);
        }
        let mut line = String::from_str("- ");
        line.append(items[i].as_str());
        line.append("\n");
        assert(line@ == parts[i as int]);
        out.append(line.as_str());
        i = i + 1;
    }
    assert(parts.take(items@.len() as int) =~= parts);
    out
}

fn threshold_cell(t: Option<i64>) -> (s: String)
    ensures
        s@ == threshold_text(t),
{
    match t {
        Some(v) => two_decimals_text_of(v),
        None => String::from_str("—"),
    }
}

fn passes_cell(p: Option<bool>) -> (s: &'static str)
    ensures
        s@ == passes_text(p),
{
    match p {
        Some(true) => "✓",
        Some(false) => "✗",
        None => "—",
    }
}

fn row_text(e: &EvidenceReport) -> (s: String)
    ensures
        s@ == evidence_row(*e),
{
    let threshold = threshold_cell(e.threshold);
    let mut s = String::from_str("| ");
    s.append(e.source.as_str());
    s.append(" | ");
    s.append(e.measurement.as_str());
    s.append(" | ");
    s.append(e.value.as_str());
    s.append(" | ");
    s.append(threshold.as_str());
    s.append(" | ");
    s.append(passes_cell(e.passes_threshold));
    s.append(" |\n");
    s
}

fn provenance_text(e: &EvidenceReport) -> (s: String)
    ensures
        s@ == provenance_line(*e),
{
    let mut s = String::from_str("**");
    s.append(e.source.as_str());
    s.append(":** [");
    s.append(e.measurement.as_str());
    s.append("](");
    s.append(e.provenance.source_url.as_str());
    s.append(")\n");
    s
}

fn rows_text(es: &Vec<EvidenceReport>) -> (out: String)
    ensures
        out@ == flat(es@.map_values(|e: EvidenceReport| evidence_row(e))),
{
    let ghost rows = es@.map_values(|e: EvidenceReport| evidence_row(e));
    let mut out = String::new();
    let mut i: usize = 0;
    assert(rows.take(0) =~= Seq::<Seq<char>>::empty());
    while i < es.len()
        invariant
            i <= es@.len(),
            rows == es@.map_values(|e: EvidenceReport| evidence_row(e)),
            out@ == flat(rows.take(i as int)),
        decreases es@.len() - i,
    {
        proof {
            lemma_flat_step(rows, i as int);
        }
        let row = row_text(&es[i]);
        out.append(row.as_str());
        i = i + 1;
    }
    assert(rows.take(es@.len() as int) =~= rows);
    out
}

fn provenance_lines_text(es: &Vec<EvidenceReport>) -> (out: String)
    ensures
        out@ == flat(es@.map_values(|e: EvidenceReport| provenance_line(e))),
{
    let ghost lines = es@.map_values(|e: EvidenceReport| provenance_line(e));
    let mut out = String::new();
    let mut i: usize = 0;
    assert(lines.take(0) =~= Seq::<Seq<char>>::empty());
    while i < es.len()
        invariant
            i <= es@.len(),
            lines == es@.map_values(|e: EvidenceReport| provenance_line(e)),
            out@ == flat(lines.take(i as int)),
        decreases es@.len() - i,
    {
        proof {
            lemma_flat_step(lines, i as int);
        }
        let line = provenance_text(&es[i]);
        out.append(line.as_str());
        i = i + 1;
    }
    assert(lines.take(es@.len() as int) =~= lines);
    out
}

fn evidence_block_text(es: &Vec<EvidenceReport>) -> (out: String)
    ensures
        out@ == evidence_block(es@),
{
    if es.len() == 0 {
        return String::new();
    }
    let rows = rows_text(es);
    let lines = provenance_lines_text(es);
    let mut out = String::from_str("#### Evidence\n\n");
    out.append("| Source | Measurement | Value | Threshold | Passes |\n");
    out.append("|--------|-------------|-------|-----------|--------|\n");
    out.append(rows.as_str());
    out.append("\n");
    out.append("#### Evidence Provenance\n\n");
    out.append(lines.as_str());
    out.append("\n");
    out
}

fn margins_text(c: &ConjunctReport) -> (out: String)
    ensures
        out@ == match c.margins {
            Some(m) => "#### Margins\n\n- **Min:** "@ + two_decimals_text(m.min as int)
                + "\n- **Max:** "@ + two_decimals_text(m.max as int) + "\n\n"@,
            None => Seq::empty(),
        },
{
    match &c.margins {
        Some(margins) => {
            let min = two_decimals_text_of(margins.min);
            let max = two_decimals_text_of(margins.max);
            let mut out = String::from_str("#### Margins\n\n- **Min:** ");
            out.append(min.as_str());
            out.append("\n- **Max:** ");
            out.append(max.as_str());
            out.append("\n\n");
            out
        },
        None => String::new(),
    }
}

fn conjunct_section_text(name: &str, conjunct: &ConjunctReport) -> (out: String)
    ensures
        out@ == conjunct_section(name@, *conjunct),
{
    let block = evidence_block_text(&conjunct.evidence);
    let margins = margins_text(conjunct);
    let mut out = String::from_str("### ");
    out.append(name);
    out.append("\n\n");
    out.append("**Status:** `");
    out.append(conjunct.status.as_str());
    out.append("`\n\n");
    out.append(block.as_str());
    out.append(margins.as_str());
    out
}

fn optional_line(label: &str, value: &Option<String>) -> (out: String)
    ensures
        out@ == match *value {
            Some(p) => label@ + p@ + "\n"@,
            None => Seq::empty(),
        },
{
    match value {
        Some(p) => {
            let mut out = String::from_str(label);
            out.append(p.as_str());
            out.append("\n");
            out
        },
        None => String::new(),
    }
}

fn metadata_text(v: &VerdictOutput) -> (out: String)
    ensures
        out@ == metadata_section(*v),
{
    let provider = optional_line("**Provider:** ", &v.model.provider);
    let version = optional_line("**Version/Date:** ", &v.model.version_or_date);
    let mut out = String::from_str("## Evaluation Metadata\n\n");
    out.append("**Model:** ");
    out.append(v.model.id.as_str());
    out.append("\n");
    out.append(provider.as_str());
    out.append(version.as_str());
    out.append("**Specification Version:** ");
    out.append(v.spec_version.as_str());
    out.append("\n");
    out.append("**Runner Version:** ");
    out.append(v.runner_version.as_str());
    out.append("\n");
    out.append("**Run Timestamp:** ");
    out.append(v.run_timestamp.as_str());
    out.append("\n");
    out.append("\n");
    out
}

fn conjuncts_text(v: &VerdictOutput) -> (out: String)
    ensures
        out@ == conjuncts_section(*v),
{
    let g = conjunct_section_text("Generality", &v.conjuncts.generality);
    let e = conjunct_section_text("Economic Substitutability", &v.conjuncts.economic_substitutability);
    let t = conjunct_section_text("Environmental Transfer", &v.conjuncts.environmental_transfer);
    let a = conjunct_section_text("Autonomous Agency", &v.conjuncts.autonomous_agency);
    let mut out = String::from_str("## Per-Conjunct Evaluation\n\n");
    out.append(g.as_str());
    out.append(e.as_str());
    out.append(t.as_str());
    out.append(a.as_str());
    out
}

fn listed_block(heading: &str, items: &Vec<String>) -> (out: String)
    ensures
        out@ == if items@.len() == 0 {
            Seq::empty()
        } else {
            heading@ + bullets(texts(items@)) + "\n"@
        },
{
    if items.len() == 0 {
        return String::new();
    }
    let list = bullets_text(items);
    let mut out = String::from_str(heading);
    out.append(list.as_str());
    out.append("\n");
    out
}

fn consistency_text(v: &VerdictOutput) -> (out: String)
    ensures
        out@ == consistency_section(*v),
{
    let rules = listed_block("**Failed Rules:**\n\n", &v.consistency_check.failed_rules);
    let detail = match &v.consistency_check.detail {
        Some(d) => {
            let mut t = String::from_str("**Detail:** ");
            t.append(d.as_str());
            t.append("\n\n");
            t
        },
        None => String::new(),
    };
    let mut out = String::from_str("## Consistency Check\n\n");
    out.append("**Status:** `");
    out.append(v.consistency_check.status.as_str());
    out.append("`\n\n");
    out.append(rules.as_str());
    out.append(detail.as_str());
    out
}

fn summary_text(v: &VerdictOutput) -> (out: String)
    ensures
        out@ == summary_section(*v),
{
    let upper = to_uppercase(v.verdict.as_str());
    let reasons = listed_block("**Reasons:**\n\n", &v.verdict_reasons);
    let mut out = String::from_str("## Verdict\n\n");
    out.append("**Result:** `");
    out.append(upper.as_str());
    out.append("`\n\n");
    out.append(reasons.as_str());
    out
}

/// Render a verdict as Markdown: the title, the evaluation metadata, one
/// section per conjunct (status, evidence table with provenance links, and
/// margins), the consistency check, the verdict with its reasons, and the
/// known gaps.
pub fn render(verdict: &VerdictOutput) -> (s: String)
    ensures
        s@ == rendered(*verdict),
{
    let metadata = metadata_text(verdict);
    let conjuncts = conjuncts_text(verdict);
    let consistency = consistency_text(verdict);
    let summary = summary_text(verdict);
    let gaps = listed_block("## Known Gaps Acknowledged\n\n", &verdict.known_gaps_acknowledged);
    let mut output = String::from_str("# AGI/4 Attestation Verdict\n\n");
    output.append(metadata.as_str());
    output.append(conjuncts.as_str());
    output.append(consistency.as_str());
    output.append(summary.as_str());
    output.append(gaps.as_str());
    output
}

} // verus!
