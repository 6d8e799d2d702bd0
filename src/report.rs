use vstd::prelude::*;

use crate::solution::BackendSolution;

verus! {

/// Every solution of the report names one of the job's `midstate_count` midstates.
pub open spec fn midstates_in_range<S: BackendSolution>(report: Seq<S>, midstate_count: usize) -> bool {
    forall|i: int| 0 <= i < report.len() ==> #[trigger] report[i].spec_midstate_idx() < midstate_count
}

/// No two solutions of the report share both midstate index and solution index.
pub open spec fn indices_distinct<S: BackendSolution>(report: Seq<S>) -> bool {
    forall|i: int, j: int|
        0 <= i < j < report.len() && #[trigger] report[i].spec_midstate_idx()
            == #[trigger] report[j].spec_midstate_idx() ==> report[i].spec_solution_idx()
            != report[j].spec_solution_idx()
}

/// Why a report of solutions was refused.
#[derive(Clone, Copy, Debug, PartialEq, Eq, Structural)]
pub enum ReportError {
    /// A solution names a midstate the job does not have.
    MidstateOutOfRange,
    /// Two solutions for one midstate carry the same solution index.
    DuplicateSolutionIdx,
}

/// Whether every solution of `report` names one of `midstate_count` midstates.
pub fn check_midstates<S: BackendSolution>(report: &[S], midstate_count: usize) -> (r: bool)
    ensures
        r == midstates_in_range(report@, midstate_count),
{
    let n = report.len();
    let mut i: usize = 0;
    while i < n
        invariant
            n == report@.len(),
            i <= n,
            forall|k: int| 0 <= k < i ==> #[trigger] report@[k].spec_midstate_idx() < midstate_count,
        decreases n - i,
    {
        if report[i].midstate_idx() >= midstate_count {
            return false;
        }
        i = i + 1;
    }
    true
}

/// Whether the solutions of `report` that share a midstate have distinct
/// solution indices.
pub fn check_solution_indices<S: BackendSolution>(report: &[S]) -> (r: bool)
    ensures
        r == indices_distinct(report@),
{
    let n = report.len();
    let mut j: usize = 0;
    while j < n
        invariant
            n == report@.len(),
            j <= n,
            forall|a: int, b: int|
                0 <= a < b < j && #[trigger] report@[a].spec_midstate_idx()
                    == #[trigger] report@[b].spec_midstate_idx() ==> report@[a].spec_solution_idx()
                    != report@[b].spec_solution_idx(),
        decreases n - j,
    {
        let midstate = report[j].midstate_idx();
        let solution = report[j].solution_idx();
        let mut i: usize = 0;
        while i < j
            invariant
                n == report@.len(),
                i <= j < n,
                midstate == report@[j as int].spec_midstate_idx(),
                solution == report@[j as int].spec_solution_idx(),
                forall|a: int, b: int|
                    0 <= a < b < j && #[trigger] report@[a].spec_midstate_idx()
                        == #[trigger] report@[b].spec_midstate_idx()
                        ==> report@[a].spec_solution_idx() != report@[b].spec_solution_idx(),
                forall|a: int|
                    0 <= a < i && #[trigger] report@[a].spec_midstate_idx() == midstate ==> report@[a].spec_solution_idx()
                        != solution,
            decreases j - i,
        {
            if report[i].midstate_idx() == midstate && report[i].solution_idx() == solution {
                assert(report@[i as int].spec_midstate_idx() == report@[j as int].spec_midstate_idx());
                return false;
            }
            i = i + 1;
        }
        j = j + 1;
    }
    true
}

/// Checks a report of solutions against the job that produced it: every
/// midstate index in range, and solution indices distinct per midstate.
pub fn validate_report<S: BackendSolution>(report: &[S], midstate_count: usize) -> (r: Result<(), ReportError>)
    ensures
        r is Ok <==> midstates_in_range(report@, midstate_count) && indices_distinct(report@),
        r == Err::<(), ReportError>(ReportError::MidstateOutOfRange) <==> !midstates_in_range(report@, midstate_count),
        r == Err::<(), ReportError>(ReportError::DuplicateSolutionIdx) <==> midstates_in_range(report@, midstate_count)
            && !indices_distinct(report@),
{
    if !check_midstates(report, midstate_count) {
        Err(ReportError::MidstateOutOfRange)
    } else if !check_solution_indices(report) {
        Err(ReportError::DuplicateSolutionIdx)
    } else {
        Ok(())
    }
}

/// Two different solutions of one report whose solution indices are distinct
/// per midstate, and that share a midstate index, differ in their solution
/// index, whichever of the two comes first.
pub proof fn lemma_shared_midstate_distinct_solution<S: BackendSolution>(report: Seq<S>, i: int, j: int)
    requires
        indices_distinct(report),
        0 <= i < report.len(),
        0 <= j < report.len(),
        i != j,
        report[i].spec_midstate_idx() == report[j].spec_midstate_idx(),
    ensures
        report[i].spec_solution_idx() != report[j].spec_solution_idx(),
{
    if i > j {
        assert(report[j].spec_midstate_idx() == report[i].spec_midstate_idx());
    }
}

} // verus!
