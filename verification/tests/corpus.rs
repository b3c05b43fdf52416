use lint_corpus::corpus::{Corpus, FixtureId, RuleId};

#[test]
fn corpus_holds_two_fixtures() {
    let c = Corpus::new();
    assert_eq!(c.len(), 2);
    assert_eq!(c.fixtures[0].id, FixtureId::RustIssuesBasic);
    assert_eq!(c.fixtures[1].id, FixtureId::RustIssuesExtended);
}

#[test]
fn no_fixture_has_empty_expectations() {
    let c = Corpus::new();
    for f in &c.fixtures {
        assert!(f.expected.len() > 0);
    }
}

#[test]
fn basic_fixture_declares_exactly_five_rules() {
    let c = Corpus::new();
    let f = c.lookup(FixtureId::RustIssuesBasic).unwrap();
    assert_eq!(
        &f.expected,
        &vec![
            RuleId::ApproxConstant,
            RuleId::EqOp,
            RuleId::LenZero,
            RuleId::NeedlessBool,
            RuleId::PtrArg,
        ]
    );
}

#[test]
fn extended_fixture_declares_the_larger_set() {
    let c = Corpus::new();
    let f = c.lookup(FixtureId::RustIssuesExtended).unwrap();
    assert_eq!(f.expected.len(), 20);
    for r in [
        RuleId::UnwrapUsed,
        RuleId::ExpectUsed,
        RuleId::Panic,
        RuleId::Todo,
        RuleId::Unimplemented,
        RuleId::NeedlessReturn,
        RuleId::CloneOnCopy,
        RuleId::CastPossibleTruncation,
        RuleId::CastSignLoss,
        RuleId::StringAdd,
        RuleId::LenZero,
        RuleId::MissingSafetyDoc,
    ] {
        assert!(f.expected.contains(&r));
    }
}

#[test]
fn each_fixture_declares_no_rule_twice() {
    let c = Corpus::new();
    for f in &c.fixtures {
        for i in 0..f.expected.len() {
            for j in (i + 1)..f.expected.len() {
                assert_ne!(f.expected[i], f.expected[j]);
            }
        }
    }
}

#[test]
fn lookup_resolves_each_identifier_to_its_fixture() {
    let c = Corpus::new();
    let basic = c.lookup(FixtureId::RustIssuesBasic).unwrap();
    assert_eq!(basic.id, FixtureId::RustIssuesBasic);
    let extended = c.lookup(FixtureId::RustIssuesExtended).unwrap();
    assert_eq!(extended.id, FixtureId::RustIssuesExtended);
}
