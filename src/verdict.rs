use vstd::prelude::*;

use crate::solution::BackendSolution;
use crate::target::{Target, Uint256};

verus! {

/// What the engine makes of one reported solution once it has recomputed the
/// solution's hash.
#[derive(Clone, Copy, Debug, PartialEq, Eq, Structural)]
pub enum Verdict {
    /// The midstate index is outside the job: validation fails.
    InvalidMidstate,
    /// The hash does not meet the backend's own target: the hardware
    /// miscomputed. It is counted, never fatal.
    HardwareError,
    /// The hash meets the backend's target but not the job's.
    LowDifficulty,
    /// The hash meets both targets: a valid share.
    Share,
}

/// The verdict on a solution for midstate `midstate_idx` of a job with
/// `midstate_count` midstates, whose recomputed hash is `hash`, filtered by the
/// backend with `backend_target`, against the job's `job_target`.
pub open spec fn verdict_of(
    midstate_idx: int,
    midstate_count: int,
    hash: int,
    backend_target: int,
    job_target: int,
) -> Verdict {
    if midstate_idx >= midstate_count {
        Verdict::InvalidMidstate
    } else if hash >= backend_target {
        Verdict::HardwareError
    } else if hash >= job_target {
        Verdict::LowDifficulty
    } else {
        Verdict::Share
    }
}

/// Judges `solution`, whose hash recomputed from the job is `hash`, for a job
/// with `midstate_count` midstates and target `job_target`.
pub fn classify<S: BackendSolution>(
    solution: &S,
    midstate_count: usize,
    hash: &Uint256,
    job_target: &Target,
) -> (r: Verdict)
    ensures
        r == verdict_of(
            solution.spec_midstate_idx() as int,
            midstate_count as int,
            hash.value(),
            solution.spec_target().value(),
            job_target.value(),
        ),
        solution.spec_midstate_idx() < midstate_count && hash.value()
            >= solution.spec_target().value() ==> r == Verdict::HardwareError,
        r == Verdict::Share ==> hash.value() < solution.spec_target().value() && hash.value()
            < job_target.value(),
{
    if solution.midstate_idx() >= midstate_count {
        Verdict::InvalidMidstate
    } else if !solution.target().is_met_by(hash) {
        Verdict::HardwareError
    } else if !job_target.is_met_by(hash) {
        Verdict::LowDifficulty
    } else {
        Verdict::Share
    }
}

/// One more than `n`, held at the largest `u64`.
pub open spec fn bump(n: u64) -> u64 {
    if n < u64::MAX {
        (n + 1) as u64
    } else {
        n
    }
}

fn bump_exec(n: u64) -> (r: u64)
    ensures
        r == bump(n),
{
    if n < u64::MAX {
        n + 1
    } else {
        n
    }
}

/// Counts of the verdicts given so far, one counter for each.
#[derive(Clone, Copy, Debug, PartialEq, Eq, Structural)]
pub struct SolutionCounts {
    pub invalid_midstates: u64,
    pub hardware_errors: u64,
    pub low_difficulty: u64,
    pub shares: u64,
}

impl SolutionCounts {
    /// The counts after one more `verdict`.
    pub open spec fn counted(self, verdict: Verdict) -> SolutionCounts {
        match verdict {
            Verdict::InvalidMidstate => SolutionCounts {
                invalid_midstates: bump(self.invalid_midstates),
                ..self
            },
            Verdict::HardwareError => SolutionCounts {
                hardware_errors: bump(self.hardware_errors),
                ..self
            },
            Verdict::LowDifficulty => SolutionCounts { low_difficulty: bump(self.low_difficulty), ..self },
            Verdict::Share => SolutionCounts { shares: bump(self.shares), ..self },
        }
    }

    /// All counters at zero.
    pub fn new() -> (r: SolutionCounts)
        ensures
            r == (SolutionCounts { invalid_midstates: 0, hardware_errors: 0, low_difficulty: 0, shares: 0 }),
    {
        SolutionCounts { invalid_midstates: 0, hardware_errors: 0, low_difficulty: 0, shares: 0 }
    }

    /// Counts one more `verdict`; a counter at the largest `u64` stays there.
    pub fn record(&mut self, verdict: Verdict)
        ensures
            *final(self) == old(self).counted(verdict),
    {
        match verdict {
            Verdict::InvalidMidstate => self.invalid_midstates = bump_exec(self.invalid_midstates),
            Verdict::HardwareError => self.hardware_errors = bump_exec(self.hardware_errors),
            Verdict::LowDifficulty => self.low_difficulty = bump_exec(self.low_difficulty),
            Verdict::Share => self.shares = bump_exec(self.shares),
        }
    }

    /// Judges `solution` as `classify` does and counts the verdict.
    pub fn account<S: BackendSolution>(
        &mut self,
        solution: &S,
        midstate_count: usize,
        hash: &Uint256,
        job_target: &Target,
    ) -> (r: Verdict)
        ensures
            r == verdict_of(
                solution.spec_midstate_idx() as int,
                midstate_count as int,
                hash.value(),
                solution.spec_target().value(),
                job_target.value(),
            ),
            *final(self) == old(self).counted(r),
    {
        let verdict = classify(solution, midstate_count, hash, job_target);
        self.record(verdict);
        verdict
    }
}

/// A solution for a midstate of the job whose recomputed hash misses the
/// backend's own target is a hardware error: counted as one, and neither a
/// share nor an invalid midstate, while the counter has room.
pub proof fn lemma_hardware_fault_counted(
    counts: SolutionCounts,
    midstate_idx: int,
    midstate_count: int,
    hash: int,
    backend_target: int,
    job_target: int,
)
    requires
        0 <= midstate_idx < midstate_count,
        hash >= backend_target,
        counts.hardware_errors < u64::MAX,
    ensures
        verdict_of(midstate_idx, midstate_count, hash, backend_target, job_target)
            == Verdict::HardwareError,
        counts.counted(Verdict::HardwareError).hardware_errors == counts.hardware_errors + 1,
        counts.counted(Verdict::HardwareError).shares == counts.shares,
        counts.counted(Verdict::HardwareError).invalid_midstates == counts.invalid_midstates,
        counts.counted(Verdict::HardwareError).low_difficulty == counts.low_difficulty,
{
}

} // verus!
