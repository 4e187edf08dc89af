//! One check cycle: which outcomes call for a notification, and the summary
//! of the cycle.

use crate::checker::CheckResult;
use vstd::prelude::*;

verus! {

/// The counts that are reported at the end of a cycle.
#[derive(Debug, Clone, Copy, PartialEq, Eq)]
pub struct CycleSummary {
    /// The number of resources checked.
    pub total: usize,
    /// The number of outcomes that are no problem.
    pub successful: usize,
    /// The number of outcomes that are a problem.
    pub failed: usize,
}

/// The number of problems among the outcomes.
pub open spec fn problem_count(results: Seq<CheckResult>) -> nat
    decreases results.len(),
{
    if results.len() == 0 {
        0
    } else {
        problem_count(results.drop_last()) + if results.last().is_problem() {
            1nat
        } else {
            0nat
        }
    }
}

/// The indices of the outcomes that are a problem, in ascending order.
pub open spec fn problem_indices(results: Seq<CheckResult>) -> Seq<usize>
    decreases results.len(),
{
    if results.len() == 0 {
        Seq::empty()
    } else if results.last().is_problem() {
        problem_indices(results.drop_last()).push((results.len() - 1) as usize)
    } else {
        problem_indices(results.drop_last())
    }
}

/// Every problem is listed exactly once: the list holds as many indices as
/// there are problems, each index is that of a problem, the indices ascend,
/// and the index of every problem is among them.
pub proof fn lemma_problem_indices(results: Seq<CheckResult>)
    requires
        results.len() <= usize::MAX,
    ensures
        problem_indices(results).len() == problem_count(results),
        problem_count(results) <= results.len(),
        forall|k: int|
            0 <= k < problem_indices(results).len() ==> {
                &&& 0 <= #[trigger] problem_indices(results)[k] < results.len()
                &&& results[problem_indices(results)[k] as int].is_problem()
            },
        forall|j: int, k: int|
            0 <= j < k < problem_indices(results).len() ==> problem_indices(results)[j]
                < problem_indices(results)[k],
        forall|i: int|
            0 <= i < results.len() && (#[trigger] results[i]).is_problem() ==> exists|k: int|
                0 <= k < problem_indices(results).len() && problem_indices(results)[k] == i,
    decreases results.len(),
{
    if results.len() > 0 {
        let rest = results.drop_last();
        lemma_problem_indices(rest);
        let found = problem_indices(results);
        let before = problem_indices(rest);
        assert forall|i: int| 0 <= i < results.len() && (#[trigger] results[i]).is_problem() implies exists|
            k: int,
        |
            0 <= k < found.len() && found[k] == i by {
            if i < rest.len() {
                assert(rest[i].is_problem());
                let k = choose|k: int| 0 <= k < before.len() && before[k] == i;
                assert(found[k] == i);
            } else {
                assert(found[found.len() - 1] == i);
            }
        }
        assert forall|k: int| 0 <= k < found.len() implies {
            &&& 0 <= #[trigger] found[k] < results.len()
            &&& results[found[k] as int].is_problem()
        } by {
            if k < before.len() {
                assert(found[k] == before[k]);
                assert(results[before[k] as int] == rest[before[k] as int]);
            }
        }
    }
}

/// The indices of the outcomes that call for a notification, in ascending
/// order.
pub fn problems(results: &Vec<CheckResult>) -> (indices: Vec<usize>)
    ensures
        indices@ == problem_indices(results@),
{
    let mut indices: Vec<usize> = Vec::new();
    let mut i: usize = 0;
    while i < results.len()
        invariant
            i <= results@.len(),
            indices@ == problem_indices(results@.take(i as int)),
        decreases results@.len() - i,
    {
        if results[i].has_problem() {
            indices.push(i);
        }
        proof {
            let prefix = results@.take(i + 1);
            assert(prefix.drop_last() =~= results@.take(i as int));
            assert(prefix.last() == results@[i as int]);
        }
        i += 1;
    }
    assert(results@.take(i as int) =~= results@);
    indices
}

/// The summary of a cycle: how many outcomes are a problem, and how many
/// are not.
pub fn summarize(results: &Vec<CheckResult>) -> (summary: CycleSummary)
    ensures
        summary.total == results@.len(),
        summary.failed == problem_count(results@),
        summary.successful == results@.len() - problem_count(results@),
{
    let mut failed: usize = 0;
    let mut i: usize = 0;
    while i < results.len()
        invariant
            i <= results@.len(),
            failed == problem_count(results@.take(i as int)),
            failed <= i,
        decreases results@.len() - i,
    {
        proof {
            let prefix = results@.take(i + 1);
            assert(prefix.drop_last() =~= results@.take(i as int));
            assert(prefix.last() == results@[i as int]);
        }
        if results[i].has_problem() {
            failed += 1;
        }
        i += 1;
    }
    assert(results@.take(i as int) =~= results@);
    CycleSummary { total: results.len(), successful: results.len() - failed, failed }
}

} // verus!
