use vstd::prelude::*;

use crate::target::{Target, Uint256};

verus! {

/// A raw candidate solution as the mining hardware reported it.
///
/// Each accessor returns the same value on every call: a solution does not
/// change once the backend has made it.
pub trait BackendSolution: core::fmt::Debug + Send + Sync {
    /// The nonce the hardware found.
    spec fn spec_nonce(&self) -> u32;

    /// The index of the midstate the nonce was found for.
    spec fn spec_midstate_idx(&self) -> usize;

    /// The index that tells apart several solutions found for one midstate.
    spec fn spec_solution_idx(&self) -> usize;

    /// The target the backend filtered nonces with.
    spec fn spec_target(&self) -> Target;

    /// Actual nonce.
    fn nonce(&self) -> (r: u32)
        ensures
            r == self.spec_nonce(),
    ;

    /// Index of a midstate that corresponds to the found nonce.
    fn midstate_idx(&self) -> (r: usize)
        ensures
            r == self.spec_midstate_idx(),
    ;

    /// Index of a solution (if multiple were found).
    fn solution_idx(&self) -> (r: usize)
        ensures
            r == self.spec_solution_idx(),
    ;

    /// Backend target used for finding this nonce; it serves mainly to detect
    /// hardware errors.
    fn target(&self) -> (r: &Target)
        ensures
            *r == self.spec_target(),
    ;
}

/// A solution held as plain values.
#[derive(Clone, Copy, Debug, PartialEq, Eq, Structural)]
pub struct Solution {
    pub nonce: u32,
    pub midstate_idx: usize,
    pub solution_idx: usize,
    pub target: Target,
}

impl BackendSolution for Solution {
    open spec fn spec_nonce(&self) -> u32 {
        self.nonce
    }

    open spec fn spec_midstate_idx(&self) -> usize {
        self.midstate_idx
    }

    open spec fn spec_solution_idx(&self) -> usize {
        self.solution_idx
    }

    open spec fn spec_target(&self) -> Target {
        self.target
    }

    fn nonce(&self) -> (r: u32) {
        self.nonce
    }

    fn midstate_idx(&self) -> (r: usize) {
        self.midstate_idx
    }

    fn solution_idx(&self) -> (r: usize) {
        self.solution_idx
    }

    fn target(&self) -> (r: &Target) {
        &self.target
    }
}

} // verus!
