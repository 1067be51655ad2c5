//! Verdict enumeration and the verdict function.
//!
//! The verdict is the load-bearing output of the runner. The verdict
//! function is total: every combination of statuses and consistency result
//! yields exactly one verdict.

use crate::conjunct::ConjunctStatus;
use crate::consistency::ConsistencyResult;
use crate::text::{str_texts, texts, to_strings};
use vstd::prelude::*;

verus! {

/// The top-level verdict from the runner.
#[derive(Debug, Clone)]
pub enum Verdict {
    Attested,
    NotAttested { reasons: Vec<String> },
    InsufficientData { missing: Vec<String> },
}

impl Verdict {
    /// Create an attested verdict.
    pub fn attested() -> (v: Self)
        ensures
            v is Attested,
    {
        Verdict::Attested
    }

    /// Create a not_attested verdict with reason(s).
    pub fn not_attested(reasons: Vec<&str>) -> (v: Self)
        ensures
            v matches Verdict::NotAttested { reasons: r } && texts(r@) == str_texts(reasons@),
    {
        Verdict::NotAttested { reasons: to_strings(&reasons) }
    }

    /// Create an insufficient_data verdict.
    pub fn insufficient_data(missing: Vec<&str>) -> (v: Self)
        ensures
            v matches Verdict::InsufficientData { missing: m } && texts(m@) == str_texts(missing@),
    {
        Verdict::InsufficientData { missing: to_strings(&missing) }
    }
}

/// Output key of each conjunct, in conjunct order.
pub open spec fn conjunct_key(i: int) -> Seq<char> {
    if i == 0 {
        "generality"@
    } else if i == 1 {
        "economic_substitutability"@
    } else if i == 2 {
        "environmental_transfer"@
    } else {
        "autonomous_agency"@
    }
}

/// The output keys of the conjuncts among the first `n` whose status satisfies `pred`.
pub open spec fn keys_where(
    st: Seq<ConjunctStatus>,
    n: int,
    pred: spec_fn(ConjunctStatus) -> bool,
) -> Seq<Seq<char>>
    decreases n,
{
    if n <= 0 {
        Seq::empty()
    } else if pred(st[n - 1]) {
        keys_where(st, n - 1, pred).push(conjunct_key(n - 1))
    } else {
        keys_where(st, n - 1, pred)
    }
}

/// Some conjunct has status `x`.
pub open spec fn any_status(st: Seq<ConjunctStatus>, x: ConjunctStatus) -> bool {
    exists|i: int| 0 <= i < 4 && st[i] == x
}

/// Every conjunct passes.
pub open spec fn every_pass(st: Seq<ConjunctStatus>) -> bool {
    forall|i: int| 0 <= i < 4 ==> st[i] == ConjunctStatus::Pass
}

/// The reasons a not_attested verdict lists: the keys of the conjuncts that
/// do not pass, then the consistency rules that failed.
pub open spec fn not_attested_reasons(st: Seq<ConjunctStatus>, c: ConsistencyResult) -> Seq<
    Seq<char>,
> {
    keys_where(st, 4, |s: ConjunctStatus| s != ConjunctStatus::Pass) + texts(c.failed_rules@)
}

/// The conjuncts an insufficient_data verdict lists as missing evidence.
pub open spec fn missing_keys(st: Seq<ConjunctStatus>) -> Seq<Seq<char>> {
    keys_where(st, 4, |s: ConjunctStatus| s == ConjunctStatus::InsufficientData)
}

/// The verdict table: attested when all four conjuncts pass and the
/// consistency check passes; not_attested when any conjunct fails (fail
/// dominates insufficient_data); insufficient_data when some conjunct lacks
/// evidence and none fails; not_attested otherwise.
pub open spec fn verdict_kind(st: Seq<ConjunctStatus>, consistency_passed: bool) -> int {
    if every_pass(st) && consistency_passed {
        0
    } else if any_status(st, ConjunctStatus::Fail) {
        1
    } else if any_status(st, ConjunctStatus::InsufficientData) {
        2
    } else {
        1
    }
}

fn conjunct_key_text(i: usize) -> (s: &'static str)
    requires
        i < 4,
    ensures
        s@ == conjunct_key(i as int),
{
    if i == 0 {
        "generality"
    } else if i == 1 {
        "economic_substitutability"
    } else if i == 2 {
        "environmental_transfer"
    } else {
        "autonomous_agency"
    }
}

/// Compute the verdict from the four conjunct statuses (in conjunct order)
/// and the consistency check result.
pub fn verdict(conjunct_statuses: &[ConjunctStatus; 4], consistency: &ConsistencyResult) -> (v:
    Verdict)
    ensures
        v is Attested <==> verdict_kind(conjunct_statuses@, consistency.passed) == 0,
        v is NotAttested <==> verdict_kind(conjunct_statuses@, consistency.passed) == 1,
        v is InsufficientData <==> verdict_kind(conjunct_statuses@, consistency.passed) == 2,
        v matches Verdict::NotAttested { reasons } ==> texts(reasons@) == not_attested_reasons(
            conjunct_statuses@,
            *consistency,
        ),
        v matches Verdict::InsufficientData { missing } ==> texts(missing@) == missing_keys(
            conjunct_statuses@,
        ),
        // attested exactly when all four pass and the consistency check passes
        v is Attested <==> (every_pass(conjunct_statuses@) && consistency.passed),
        // a failing conjunct always yields not_attested
        any_status(conjunct_statuses@, ConjunctStatus::Fail) ==> v is NotAttested,
{
    let mut all_pass = true;
    let mut any_fail = false;
    let mut any_insufficient = false;
    let mut not_passing: Vec<String> = Vec::new();
    let mut missing: Vec<String> = Vec::new();
    let mut i: usize = 0;
    while i < 4
        invariant
            i <= 4,
            all_pass <==> (forall|j: int| 0 <= j < i ==> conjunct_statuses@[j] == ConjunctStatus::Pass),
            any_fail <==> (exists|j: int| 0 <= j < i && conjunct_statuses@[j] == ConjunctStatus::Fail),
            any_insufficient <==> (exists|j: int|
                0 <= j < i && conjunct_statuses@[j] == ConjunctStatus::InsufficientData),
            texts(not_passing@) == keys_where(
                conjunct_statuses@,
                i as int,
                |s: ConjunctStatus| s != ConjunctStatus::Pass,
            ),
            texts(missing@) == keys_where(
                conjunct_statuses@,
                i as int,
                |s: ConjunctStatus| s == ConjunctStatus::InsufficientData,
            ),
        decreases 4 - i,
    {
        let s = conjunct_statuses[i];
        if s != ConjunctStatus::Pass {
            all_pass = false;
            let ghost before = not_passing@;
            not_passing.push(String::from_str(conjunct_key_text(i)));
            assert(texts(not_passing@) =~= texts(before).push(conjunct_key(i as int)));
        }
        if s == ConjunctStatus::Fail {
            any_fail = true;
        }
        if s == ConjunctStatus::InsufficientData {
            any_insufficient = true;
            let ghost before = missing@;
            missing.push(String::from_str(conjunct_key_text(i)));
            assert(texts(missing@) =~= texts(before).push(conjunct_key(i as int)));
        }
        i = i + 1;
    }
    if all_pass && consistency.passed {
        Verdict::Attested
    } else if any_fail || !any_insufficient {
        let mut reasons = not_passing;
        let mut k: usize = 0;
        let ghost base = texts(reasons@);
        while k < consistency.failed_rules.len()
            invariant
                k <= consistency.failed_rules@.len(),
                texts(reasons@) == base + texts(consistency.failed_rules@).take(k as int),
            decreases consistency.failed_rules@.len() - k,
        {
            let ghost before = reasons@;
            reasons.push(consistency.failed_rules[k].clone());
            assert(texts(reasons@) =~= texts(before).push(consistency.failed_rules@[k as int]@));
            assert(texts(consistency.failed_rules@).take(k + 1) =~= texts(
                consistency.failed_rules@,
            ).take(k as int).push(consistency.failed_rules@[k as int]@));
            k = k + 1;
        }
        assert(texts(consistency.failed_rules@).take(consistency.failed_rules@.len() as int)
            =~= texts(consistency.failed_rules@));
        Verdict::NotAttested { reasons }
    } else {
        Verdict::InsufficientData { missing }
    }
}

} // verus!
