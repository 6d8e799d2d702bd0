//! Hardware-abstraction boundary between the mining work engine and its
//! hardware backends: the shape of a reported solution, the checks the
//! engine runs on it, and the contract every backend type satisfies.

mod backend;
mod registry;
mod report;
mod solution;
mod span;
mod target;
mod verdict;

pub use backend::{attach_backend, attachment_of, attachment_spec, Backend};
pub use registry::{
    attachments_wf, holds_backend, lemma_two_registrations_both_attached, Attachment, BackendRegistry, RegisterError};
pub use report::{
    check_midstates, check_solution_indices, indices_distinct, lemma_shared_midstate_distinct_solution,
    midstates_in_range, validate_report, ReportError,
};
pub use solution::{BackendSolution, Solution};
pub use span::Span;
pub use target::{Target, Uint256};
pub use verdict::{bump, classify, lemma_hardware_fault_counted, verdict_of, SolutionCounts, Verdict};
