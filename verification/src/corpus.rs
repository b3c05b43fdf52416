//! The fixture corpus: rule identifiers, findings, fixtures and the
//! expectation table that maps each fixture to the rules it must trigger.

use vstd::prelude::*;

verus! {

/// Identifier of a diagnostic rule of the analyzer under test.
#[derive(Clone, Copy, PartialEq, Eq, Structural, Debug)]
pub enum RuleId {
    ApproxConstant,
    EqOp,
    LenZero,
    NeedlessBool,
    PtrArg,
    UnwrapUsed,
    ExpectUsed,
    Panic,
    Todo,
    Unimplemented,
    CognitiveComplexity,
    TooManyArguments,
    NeedlessReturn,
    CloneOnCopy,
    ManualMap,
    SingleMatch,
    RedundantClosure,
    CastPossibleTruncation,
    CastSignLoss,
    StringAdd,
    CollapsibleIf,
    MissingSafetyDoc,
    MutFromRef,
}

/// One diagnostic instance reported by the analyzer: a rule identifier
/// and the line it was reported on.
#[derive(Clone, Copy, PartialEq, Eq, Structural, Debug)]
pub struct Finding {
    pub rule: RuleId,
    pub line: u32,
}

/// Identifier of a fixture. The two variants of the issues sample share
/// a file name, so each carries a distinct identifier of its own.
#[derive(Clone, Copy, PartialEq, Eq, Structural, Debug)]
pub enum FixtureId {
    RustIssuesBasic,
    RustIssuesExtended,
}

/// A fixture: a named unit of sample code together with the set of rule
/// identifiers it is expected to trigger.
pub struct Fixture {
    pub id: FixtureId,
    pub expected: Vec<RuleId>,
}

impl Fixture {
    /// A fixture is well formed when it declares at least one expected
    /// rule (it must justify its existence by triggering something) and
    /// declares no rule twice (the expectation is a set).
    pub open spec fn wf(&self) -> bool {
        &&& self.expected@.len() > 0
        &&& forall|i: int, j: int|
            0 <= i < j < self.expected@.len() ==> self.expected@[i] != self.expected@[j]
    }
}

/// The rules the basic issues fixture is expected to trigger.
pub open spec fn basic_expected() -> Seq<RuleId> {
    seq![
        RuleId::ApproxConstant,
        RuleId::EqOp,
        RuleId::LenZero,
        RuleId::NeedlessBool,
        RuleId::PtrArg,
    ]
}

/// The rules the extended issues fixture is expected to trigger.
pub open spec fn extended_expected() -> Seq<RuleId> {
    seq![
        RuleId::UnwrapUsed,
        RuleId::ExpectUsed,
        RuleId::Panic,
        RuleId::Todo,
        RuleId::Unimplemented,
        RuleId::CognitiveComplexity,
        RuleId::TooManyArguments,
        RuleId::NeedlessReturn,
        RuleId::CloneOnCopy,
        RuleId::ManualMap,
        RuleId::SingleMatch,
        RuleId::RedundantClosure,
        RuleId::CastPossibleTruncation,
        RuleId::CastSignLoss,
        RuleId::StringAdd,
        RuleId::PtrArg,
        RuleId::LenZero,
        RuleId::CollapsibleIf,
        RuleId::MissingSafetyDoc,
        RuleId::MutFromRef,
    ]
}

/// The expectation table: every fixture of the corpus, each resolved by
/// a distinct identifier.
pub struct Corpus {
    pub fixtures: Vec<Fixture>,
}

impl Corpus {
    /// A corpus is well formed when every fixture is well formed and no
    /// two fixtures share an identifier, so each identifier resolves to
    /// exactly one fixture.
    pub open spec fn wf(&self) -> bool {
        &&& forall|i: int| 0 <= i < self.fixtures@.len() ==> (#[trigger] self.fixtures@[i]).wf()
        &&& forall|i: int, j: int|
            0 <= i < j < self.fixtures@.len() ==> self.fixtures@[i].id != self.fixtures@[j].id
    }

    /// Builds the corpus: the two variants of the issues fixture, each
    /// with its declared expected rule set.
    pub fn new() -> (c: Corpus)
        ensures
            c.wf(),
            c.fixtures@.len() == 2,
            c.fixtures@[0].id == FixtureId::RustIssuesBasic,
            c.fixtures@[0].expected@ == basic_expected(),
            c.fixtures@[1].id == FixtureId::RustIssuesExtended,
            c.fixtures@[1].expected@ == extended_expected(),
    {
        let mut basic: Vec<RuleId> = Vec::new();
        basic.push(RuleId::ApproxConstant);
        basic.push(RuleId::EqOp);
        basic.push(RuleId::LenZero);
        basic.push(RuleId::NeedlessBool);
        basic.push(RuleId::PtrArg);
        proof {
            assert(basic@ =~= basic_expected());
        }
        let mut extended: Vec<RuleId> = Vec::new();
        extended.push(RuleId::UnwrapUsed);
        extended.push(RuleId::ExpectUsed);
        extended.push(RuleId::Panic);
        extended.push(RuleId::Todo);
        extended.push(RuleId::Unimplemented);
        extended.push(RuleId::CognitiveComplexity);
        extended.push(RuleId::TooManyArguments);
        extended.push(RuleId::NeedlessReturn);
        extended.push(RuleId::CloneOnCopy);
        extended.push(RuleId::ManualMap);
        extended.push(RuleId::SingleMatch);
        extended.push(RuleId::RedundantClosure);
        extended.push(RuleId::CastPossibleTruncation);
        extended.push(RuleId::CastSignLoss);
        extended.push(RuleId::StringAdd);
        extended.push(RuleId::PtrArg);
        extended.push(RuleId::LenZero);
        extended.push(RuleId::CollapsibleIf);
        extended.push(RuleId::MissingSafetyDoc);
        extended.push(RuleId::MutFromRef);
        proof {
            assert(extended@ =~= extended_expected());
        }
        let mut fixtures: Vec<Fixture> = Vec::new();
        fixtures.push(Fixture { id: FixtureId::RustIssuesBasic, expected: basic });
        fixtures.push(Fixture { id: FixtureId::RustIssuesExtended, expected: extended });
        Corpus { fixtures }
    }

    /// How many fixtures the corpus holds.
    pub fn len(&self) -> (n: usize)
        ensures
            n == self.fixtures@.len(),
    {
        self.fixtures.len()
    }

    /// Resolves an identifier to its fixture. Returns the fixture that
    /// carries the identifier, and `None` exactly when no fixture does.
    pub fn lookup(&self, id: FixtureId) -> (r: Option<&Fixture>)
        requires
            self.wf(),
        ensures
            r is Some <==> exists|i: int|
                0 <= i < self.fixtures@.len() && (#[trigger] self.fixtures@[i]).id == id,
            r is Some ==> r->0.id == id && r->0.wf() && self.fixtures@.contains(*r->0),
    {
        let mut i: usize = 0;
        while i < self.fixtures.len()
            invariant
                self.wf(),
                i <= self.fixtures@.len(),
                forall|k: int| 0 <= k < i ==> (#[trigger] self.fixtures@[k]).id != id,
            decreases self.fixtures@.len() - i,
        {
            if self.fixtures[i].id == id {
                return Some(&self.fixtures[i]);
            }
            i = i + 1;
        }
        None
    }
}

/// Every fixture of a well-formed corpus declares at least one expected
/// rule: the corpus contains no fixture whose expected rule set is empty.
pub proof fn lemma_every_fixture_justified(c: &Corpus, i: int)
    requires
        c.wf(),
        0 <= i < c.fixtures@.len(),
    ensures
        c.fixtures@[i].expected@.len() > 0,
{
}

} // verus!
