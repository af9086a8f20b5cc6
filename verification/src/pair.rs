//! Candidate pairs and the standard pair-priority formula.

use vstd::prelude::*;
use crate::types::{Candidate, CandidatePairState};

verus! {

/// The standard pair-priority formula.  `g` is the priority the controlling
/// agent assigned to its candidate of the pair and `d` the controlled
/// agent's: `2^32 * min(g, d) + 2 * max(g, d) + (1 if g > d else 0)`, so the
/// tie-break favours the controlling side.
pub open spec fn pair_priority(local_priority: int, remote_priority: int, controlling: bool) -> int {
    let g = if controlling { local_priority } else { remote_priority };
    let d = if controlling { remote_priority } else { local_priority };
    let mn = if g < d { g } else { d };
    let mx = if g < d { d } else { g };
    0x1_0000_0000 * mn + 2 * mx + (if g > d { 1int } else { 0int })
}

/// A (local, remote) candidate combination under probe.  The candidates are
/// designated by index into the agent's local and remote candidate lists;
/// their immutable priorities are copied in at pair-creation time, together
/// with the agent's role, so a pair's derived priority is self-contained.
#[derive(Clone, Copy, PartialEq, Eq, Structural, Debug)]
pub struct CandidatePair {
    pub local_idx: usize,
    pub remote_idx: usize,
    pub local_priority: u32,
    pub remote_priority: u32,
    /// Whether this agent was in the controlling role when the pair formed.
    pub controlling: bool,
    pub state: CandidatePairState,
    pub nominated: bool,
    /// How many check requests have been issued for this pair.
    pub binding_request_count: u16,
}

impl CandidatePair {
    /// The pair's derived numeric priority.
    pub open spec fn priority_spec(self) -> int {
        pair_priority(self.local_priority as int, self.remote_priority as int, self.controlling)
    }

    /// A fresh pair: state `Waiting`, not nominated, no requests issued.
    pub open spec fn new_spec(
        local_idx: usize,
        remote_idx: usize,
        local_priority: u32,
        remote_priority: u32,
        controlling: bool,
    ) -> CandidatePair {
        CandidatePair {
            local_idx,
            remote_idx,
            local_priority,
            remote_priority,
            controlling,
            state: CandidatePairState::Waiting,
            nominated: false,
            binding_request_count: 0,
        }
    }

    /// Builds a fresh pair over the two candidates.
    pub fn new(
        local_idx: usize,
        remote_idx: usize,
        local: &Candidate,
        remote: &Candidate,
        controlling: bool,
    ) -> (p: CandidatePair)
        ensures
            p == CandidatePair::new_spec(
                local_idx,
                remote_idx,
                local.priority,
                remote.priority,
                controlling,
            ),
    {
        CandidatePair {
            local_idx,
            remote_idx,
            local_priority: local.priority,
            remote_priority: remote.priority,
            controlling,
            state: CandidatePairState::Waiting,
            nominated: false,
            binding_request_count: 0,
        }
    }

    /// The derived priority.  Computed in 128 bits: the formula's value
    /// reaches just past 64 bits when both candidate priorities are extreme.
    pub fn priority(&self) -> (r: u128)
        ensures
            r as int == self.priority_spec(),
    {
        let g: u128 = if self.controlling {
            self.local_priority as u128
        } else {
            self.remote_priority as u128
        };
        let d: u128 = if self.controlling {
            self.remote_priority as u128
        } else {
            self.local_priority as u128
        };
        let mn: u128 = if g < d { g } else { d };
        let mx: u128 = if g < d { d } else { g };
        let tie: u128 = if g > d { 1 } else { 0 };
        0x1_0000_0000u128 * mn + 2 * mx + tie
    }
}

} // verus!
