//! Deciding whether a fixture's expectations are met by a report.
//!
//! A report is the list of findings the analyzer produced for one
//! fixture. Coverage asks that every declared rule was reported at
//! least once; drift asks whether any reported rule was not declared.

use vstd::prelude::*;
use crate::corpus::{Corpus, Finding, Fixture, RuleId};

verus! {

broadcast use vstd::seq_lib::lemma_seq_contains_after_push;

/// Whether the report tags at least one finding with the rule.
pub open spec fn rule_in(findings: Seq<Finding>, r: RuleId) -> bool {
    exists|i: int| 0 <= i < findings.len() && findings[i].rule == r
}

/// Whether every declared expected rule is reported at least once.
pub open spec fn covers(expected: Seq<RuleId>, findings: Seq<Finding>) -> bool {
    forall|j: int| 0 <= j < expected.len() ==> rule_in(findings, #[trigger] expected[j])
}

/// Whether every reported finding carries a declared expected rule.
pub open spec fn within(expected: Seq<RuleId>, findings: Seq<Finding>) -> bool {
    forall|i: int| 0 <= i < findings.len() ==> expected.contains(#[trigger] findings[i].rule)
}

/// Whether the reported rule set is exactly the declared expected set:
/// everything declared was reported, and nothing else was.
pub open spec fn exact(expected: Seq<RuleId>, findings: Seq<Finding>) -> bool {
    covers(expected, findings) && within(expected, findings)
}

/// Whether the report tags at least one finding with the rule.
pub fn rule_reported(findings: &Vec<Finding>, r: RuleId) -> (b: bool)
    ensures
        b == rule_in(findings@, r),
{
    let mut i: usize = 0;
    while i < findings.len()
        invariant
            i <= findings@.len(),
            forall|k: int| 0 <= k < i ==> findings@[k].rule != r,
        decreases findings@.len() - i,
    {
        if findings[i].rule == r {
            return true;
        }
        i = i + 1;
    }
    false
}

/// Whether the list of rules contains the rule.
pub fn contains_rule(rules: &Vec<RuleId>, r: RuleId) -> (b: bool)
    ensures
        b == rules@.contains(r),
{
    let mut i: usize = 0;
    while i < rules.len()
        invariant
            i <= rules@.len(),
            forall|k: int| 0 <= k < i ==> rules@[k] != r,
        decreases rules@.len() - i,
    {
        if rules[i] == r {
            return true;
        }
        i = i + 1;
    }
    false
}

/// Whether the report meets the fixture's coverage contract: each
/// declared expected rule is reported at least once.
pub fn check_coverage(fixture: &Fixture, findings: &Vec<Finding>) -> (b: bool)
    ensures
        b == covers(fixture.expected@, findings@),
{
    let mut j: usize = 0;
    while j < fixture.expected.len()
        invariant
            j <= fixture.expected@.len(),
            forall|k: int| 0 <= k < j ==> rule_in(findings@, #[trigger] fixture.expected@[k]),
        decreases fixture.expected@.len() - j,
    {
        if !rule_reported(findings, fixture.expected[j]) {
            return false;
        }
        j = j + 1;
    }
    true
}

/// Whether the report stays within the fixture's declared rule set:
/// no finding carries an undeclared rule.
pub fn check_no_drift(fixture: &Fixture, findings: &Vec<Finding>) -> (b: bool)
    ensures
        b == within(fixture.expected@, findings@),
{
    let mut i: usize = 0;
    while i < findings.len()
        invariant
            i <= findings@.len(),
            forall|k: int| 0 <= k < i ==> fixture.expected@.contains(#[trigger] findings@[k].rule),
        decreases findings@.len() - i,
    {
        if !contains_rule(&fixture.expected, findings[i].rule) {
            return false;
        }
        i = i + 1;
    }
    true
}

/// Whether the reported rule set is exactly the declared expected set.
pub fn check_exact(fixture: &Fixture, findings: &Vec<Finding>) -> (b: bool)
    ensures
        b == exact(fixture.expected@, findings@),
{
    let covered = check_coverage(fixture, findings);
    let no_drift = check_no_drift(fixture, findings);
    covered && no_drift
}

/// The declared expected rules the report fails to cover, in the order
/// they are declared. Empty exactly when the report covers the fixture.
pub fn missing_rules(fixture: &Fixture, findings: &Vec<Finding>) -> (v: Vec<RuleId>)
    ensures
        v@ == fixture.expected@.filter(|r: RuleId| !rule_in(findings@, r)),
        forall|r: RuleId|
            #[trigger] v@.contains(r) <==> fixture.expected@.contains(r) && !rule_in(findings@, r),
        v@.len() == 0 <==> covers(fixture.expected@, findings@),
{
    let ghost pred = |r: RuleId| !rule_in(findings@, r);
    let mut v: Vec<RuleId> = Vec::new();
    let mut j: usize = 0;
    while j < fixture.expected.len()
        invariant
            j <= fixture.expected@.len(),
            v@ == fixture.expected@.take(j as int).filter(pred),
            pred == (|r: RuleId| !rule_in(findings@, r)),
            forall|r: RuleId|
                #[trigger] v@.contains(r) <==> (exists|k: int|
                    0 <= k < j && fixture.expected@[k] == r) && !rule_in(findings@, r),
            forall|k: int| 0 <= k < j && !rule_in(findings@, #[trigger] fixture.expected@[k])
                ==> v@.contains(fixture.expected@[k]),
        decreases fixture.expected@.len() - j,
    {
        let r = fixture.expected[j];
        let ghost prefix = fixture.expected@.take(j as int);
        let ghost next = fixture.expected@.take(j as int + 1);
        proof {
            reveal_with_fuel(Seq::filter, 2);
            assert(next.drop_last() =~= prefix);
            assert(next.last() == fixture.expected@[j as int]);
        }
        if !rule_reported(findings, r) {
            v.push(r);
        }
        j = j + 1;
    }
    proof {
        assert(fixture.expected@.take(fixture.expected@.len() as int) =~= fixture.expected@);
        if v@.len() > 0 {
            assert(v@.contains(v@[0]));
            let w = choose|k: int|
                0 <= k < fixture.expected@.len() && fixture.expected@[k] == v@[0];
            assert(!rule_in(findings@, fixture.expected@[w]));
        }
        if !covers(fixture.expected@, findings@) {
            let w = choose|k: int|
                0 <= k < fixture.expected@.len() && !rule_in(
                    findings@,
                    #[trigger] fixture.expected@[k],
                );
            assert(v@.contains(fixture.expected@[w]));
        }
    }
    v
}

/// What running the analyzer over a fixture came to: either the report
/// meets the fixture's coverage contract, or the declared expectations
/// have drifted from what the analyzer reports.
#[derive(Clone, Copy, PartialEq, Eq, Structural, Debug)]
pub enum Verdict {
    Pass,
    ExpectationDrift,
}

/// Classifies a report against a fixture: a pass exactly when every
/// declared expected rule was reported at least once, and an
/// expectation drift otherwise.
pub fn evaluate(fixture: &Fixture, findings: &Vec<Finding>) -> (v: Verdict)
    ensures
        v == Verdict::Pass <==> covers(fixture.expected@, findings@),
        v == Verdict::Pass || v == Verdict::ExpectationDrift,
{
    if check_coverage(fixture, findings) {
        Verdict::Pass
    } else {
        Verdict::ExpectationDrift
    }
}

/// The verdict on a report depends only on which rules it reports:
/// two reports that tag the same rule set (whatever the order, the
/// line numbers or how often a rule repeats) get the same verdict.
pub proof fn lemma_verdict_from_rule_set_alone(
    expected: Seq<RuleId>,
    a: Seq<Finding>,
    b: Seq<Finding>,
)
    requires
        forall|r: RuleId| #[trigger] rule_in(a, r) <==> rule_in(b, r),
    ensures
        covers(expected, a) == covers(expected, b),
        within(expected, a) == within(expected, b),
        exact(expected, a) == exact(expected, b),
{
    if within(expected, a) {
        assert forall|i: int| 0 <= i < b.len() implies expected.contains(
            #[trigger] b[i].rule,
        ) by {
            assert(rule_in(b, b[i].rule));
            assert(rule_in(a, b[i].rule));
            let w = choose|k: int| 0 <= k < a.len() && a[k].rule == b[i].rule;
            assert(expected.contains(a[w].rule));
        }
    }
    if within(expected, b) {
        assert forall|i: int| 0 <= i < a.len() implies expected.contains(
            #[trigger] a[i].rule,
        ) by {
            assert(rule_in(a, a[i].rule));
            assert(rule_in(b, a[i].rule));
            let w = choose|k: int| 0 <= k < b.len() && b[k].rule == a[i].rule;
            assert(expected.contains(b[w].rule));
        }
    }
}

/// A covered expected rule is witnessed by a concrete finding: when a
/// report covers a fixture, each declared rule has at least one finding
/// tagged with it.
pub proof fn lemma_covered_rule_has_finding(expected: Seq<RuleId>, findings: Seq<Finding>, j: int)
    requires
        covers(expected, findings),
        0 <= j < expected.len(),
    ensures
        exists|i: int| 0 <= i < findings.len() && findings[i].rule == expected[j],
{
    assert(rule_in(findings, expected[j]));
}

/// Whether each fixture of the corpus is covered by its own report,
/// report `i` standing for fixture `i`.
pub fn corpus_covered(c: &Corpus, reports: &Vec<Vec<Finding>>) -> (b: bool)
    requires
        reports@.len() == c.fixtures@.len(),
    ensures
        b == forall|i: int|
            0 <= i < c.fixtures@.len() ==> covers(
                (#[trigger] c.fixtures@[i]).expected@,
                reports@[i]@,
            ),
{
    let mut i: usize = 0;
    while i < c.fixtures.len()
        invariant
            i <= c.fixtures@.len(),
            reports@.len() == c.fixtures@.len(),
            forall|k: int|
                0 <= k < i ==> covers((#[trigger] c.fixtures@[k]).expected@, reports@[k]@),
        decreases c.fixtures@.len() - i,
    {
        if !check_coverage(&c.fixtures[i], &reports[i]) {
            return false;
        }
        i = i + 1;
    }
    true
}

} // verus!
