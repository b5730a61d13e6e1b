//! Companion evaluation: scenarios, the results of their checks, and how
//! check results are looked up and counted.
use vstd::prelude::*;
use crate::text::str_eq;

verus! {

/// The version of the evaluation harness.
pub const HARNESS_VERSION: &'static str = "2.0.1";

#[derive(Clone, Copy, Debug, PartialEq, Eq, PartialOrd, Ord, Structural)]
pub enum EvalCategory {
    Persona,
    Memory,
    Relationship,
    Proactive,
    Controls,
}

#[derive(Clone, Debug, PartialEq, Eq)]
pub struct CompanionEvalScenario {
    pub id: String,
    pub category: EvalCategory,
    pub description: String,
    pub checks: Vec<String>,
}

#[derive(Clone, Debug, PartialEq, Eq)]
pub struct EvalCheckResult {
    pub check: String,
    pub passed: bool,
    pub detail: String,
}

#[derive(Clone, Debug, PartialEq, Eq)]
pub struct CompanionEvalResult {
    pub id: String,
    pub category: EvalCategory,
    pub passed: bool,
    pub checks: Vec<EvalCheckResult>,
}

/// Whether the first check named `name` passed; false when none has that name.
pub open spec fn first_check_passed(checks: Seq<EvalCheckResult>, name: Seq<char>) -> bool
    decreases checks.len(),
{
    if checks.len() == 0 {
        false
    } else if checks[0].check@ == name {
        checks[0].passed
    } else {
        first_check_passed(checks.skip(1), name)
    }
}

/// How many of `names` name a check that passed.
pub open spec fn passed_count(checks: Seq<EvalCheckResult>, names: Seq<Seq<char>>) -> nat
    decreases names.len(),
{
    if names.len() == 0 {
        0
    } else {
        passed_count(checks, names.drop_last()) + if first_check_passed(checks, names.last()) {
            1nat
        } else {
            0nat
        }
    }
}

/// Whether the first check named `name` passed.
pub fn check_passed(checks: &Vec<EvalCheckResult>, name: &str) -> (r: bool)
    ensures
        r == first_check_passed(checks@, name@),
{
    let mut i: usize = 0;
    assert(checks@.skip(0) =~= checks@);
    while i < checks.len()
        invariant
            i <= checks@.len(),
            first_check_passed(checks@, name@) == first_check_passed(checks@.skip(i as int), name@),
        decreases checks@.len() - i,
    {
        proof {
            assert(checks@.skip(i as int).skip(1) =~= checks@.skip(i + 1));
        }
        if str_eq(checks[i].check.as_str(), name) {
            return checks[i].passed;
        }
        i = i + 1;
    }
    false
}

/// How many of `names` name a check that passed.
pub fn count_passed(checks: &Vec<EvalCheckResult>, names: &[&str]) -> (r: usize)
    ensures
        r == passed_count(checks@, crate::text::str_views(names@)),
{
    let mut count: usize = 0;
    let mut i: usize = 0;
    while i < names.len()
        invariant
            i <= names@.len(),
            count <= i,
            count == passed_count(checks@, crate::text::str_views(names@.take(i as int))),
        decreases names@.len() - i,
    {
        proof {
            assert(crate::text::str_views(names@.take(i + 1)).drop_last() =~= crate::text::str_views(
                names@.take(i as int),
            ));
        }
        if check_passed(checks, names[i]) {
            count = count + 1;
        }
        i = i + 1;
    }
    proof {
        assert(names@.take(i as int) =~= names@);
    }
    count
}

/// A scenario passes when every one of its checks passed.
pub fn all_checks_passed(checks: &Vec<EvalCheckResult>) -> (r: bool)
    ensures
        r == forall|i: int| 0 <= i < checks@.len() ==> #[trigger] checks@[i].passed,
{
    let mut i: usize = 0;
    while i < checks.len()
        invariant
            i <= checks@.len(),
            forall|k: int| 0 <= k < i ==> #[trigger] checks@[k].passed,
        decreases checks@.len() - i,
    {
        if !checks[i].passed {
            return false;
        }
        i = i + 1;
    }
    true
}

} // verus!
