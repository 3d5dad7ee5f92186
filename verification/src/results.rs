//! Test results as the runner hands them over.
//!
//! The state carries the runner's groups through unchanged. The only thing it ever
//! reads out of a group is the list of tests that the group holds.

use cargo_ptest::parse::ParsedTest;
use cargo_ptest::parse::ParsedTestGroup;
use vstd::prelude::*;

verus! {

/// `cargo_ptest::parse::ParsedTestGroup`, the tests of one file of a run. Opaque
/// here: a value of it is stored, cloned and handed back, never taken apart.
#[verifier::external_type_specification]
#[verifier::external_body]
pub struct ExParsedTestGroup(ParsedTestGroup);

/// `cargo_ptest::parse::ParsedTest`, the record of one test. Opaque here.
#[verifier::external_type_specification]
#[verifier::external_body]
pub struct ExParsedTest(ParsedTest);

/// The tests that a group holds, in the group's order: what its public field
/// `tests` contains.
pub uninterp spec fn group_tests(group: ParsedTestGroup) -> Seq<ParsedTest>;

/// Clones the public field `tests` of a `ParsedTestGroup`. Not proved: that the
/// clone holds the group's tests, in order.
#[verifier::external_body]
pub(crate) fn tests_of(group: &ParsedTestGroup) -> (tests: Vec<ParsedTest>)
    ensures
        tests@ == group_tests(*group),
{
    group.tests.clone()
}

/// Calls the derived `Clone` of `ParsedTestGroup`. Not proved: that the clone
/// equals the group it was made from.
#[verifier::external_body]
pub(crate) fn clone_group(group: &ParsedTestGroup) -> (copy: ParsedTestGroup)
    ensures
        copy == *group,
{
    group.clone()
}

/// Calls the derived `Clone` of `ParsedTest`. Not proved: that the clone equals
/// the test it was made from.
#[verifier::external_body]
pub(crate) fn clone_test(test: &ParsedTest) -> (copy: ParsedTest)
    ensures
        copy == *test,
{
    test.clone()
}

/// The tests of all groups, one group after the other.
pub open spec fn flat_tests(groups: Seq<ParsedTestGroup>) -> Seq<ParsedTest> {
    groups.map_values(|g: ParsedTestGroup| group_tests(g)).flatten()
}

/// Flattening one group more appends that group's tests.
pub proof fn lemma_flat_tests_push(groups: Seq<ParsedTestGroup>, group: ParsedTestGroup)
    ensures
        flat_tests(groups.push(group)) == flat_tests(groups) + group_tests(group),
{
    let f = |g: ParsedTestGroup| group_tests(g);
    assert(groups.push(group).map_values(f) =~= groups.map_values(f).push(group_tests(group)));
    groups.map_values(f).lemma_flatten_push(group_tests(group));
}

/// No groups hold no tests.
pub proof fn lemma_flat_tests_empty()
    ensures
        flat_tests(Seq::<ParsedTestGroup>::empty()) == Seq::<ParsedTest>::empty(),
{
    let f = |g: ParsedTestGroup| group_tests(g);
    assert(Seq::<ParsedTestGroup>::empty().map_values(f) =~= Seq::<Seq<ParsedTest>>::empty());
}

/// The tests of all groups in one list, in the order of the groups.
pub fn linear_tests(groups: &Vec<ParsedTestGroup>) -> (tests: Vec<ParsedTest>)
    ensures
        tests@ == flat_tests(groups@),
{
    let mut tests: Vec<ParsedTest> = Vec::new();
    let mut i: usize = 0;
    proof {
        lemma_flat_tests_empty();
        assert(groups@.take(0) =~= Seq::<ParsedTestGroup>::empty());
    }
    while i < groups.len()
        invariant
            i <= groups@.len(),
            tests@ == flat_tests(groups@.take(i as int)),
        decreases groups@.len() - i,
    {
        let mut more = tests_of(&groups[i]);
        proof {
            lemma_flat_tests_push(groups@.take(i as int), groups@[i as int]);
            assert(groups@.take(i as int + 1) =~= groups@.take(i as int).push(groups@[i as int]));
        }
        tests.append(&mut more);
        i += 1;
    }
    proof {
        assert(groups@.take(i as int) =~= groups@);
    }
    tests
}

/// A copy of the groups, equal to them one by one.
pub fn clone_groups(groups: &Vec<ParsedTestGroup>) -> (copy: Vec<ParsedTestGroup>)
    ensures
        copy@ == groups@,
{
    let mut copy: Vec<ParsedTestGroup> = Vec::new();
    let mut i: usize = 0;
    while i < groups.len()
        invariant
            i <= groups@.len(),
            copy@ == groups@.take(i as int),
        decreases groups@.len() - i,
    {
        copy.push(clone_group(&groups[i]));
        proof {
            assert(groups@.take(i as int + 1) =~= groups@.take(i as int).push(groups@[i as int]));
        }
        i += 1;
    }
    proof {
        assert(groups@.take(i as int) =~= groups@);
    }
    copy
}

} // verus!
