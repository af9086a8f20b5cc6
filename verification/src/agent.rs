//! The agent core: owned state, its well-formedness invariant, the session
//! state machine, selection, and lifecycle.

use vstd::prelude::*;
use crate::types::{Candidate, ConnectionState, IceError, Notifications};
use crate::pair::CandidatePair;
use crate::tracker::BindingRequest;

verus! {

/// Two pairs probe the same (local, remote) candidate combination.
pub open spec fn same_combination(a: CandidatePair, b: CandidatePair) -> bool {
    a.local_idx == b.local_idx && a.remote_idx == b.remote_idx
}

/// No two pairs of the checklist reference the same combination.
pub open spec fn no_duplicate_pairs(cl: Seq<CandidatePair>) -> bool {
    forall|i: int, j: int|
        0 <= i < j < cl.len() ==> !same_combination(#[trigger] cl[i], #[trigger] cl[j])
}

/// The agent core.  Candidates live in the two candidate lists; pairs and
/// the selection designate them by index.  Times are milliseconds of one
/// monotonic clock, handed in by the caller, who also performs every send
/// and emits the notifications the methods return.
pub struct AgentInternal {
    /// Whether this agent is in the controlling role.
    pub is_controlling: bool,
    /// Lite mode.  Kept as configuration; the scheduler here probes in lite
    /// mode too, leaving any lite-specific suppression to the caller.
    pub lite: bool,
    /// Set once `close` succeeds; a closed agent reports `IceError::Closed`.
    pub closed: bool,
    pub connection_state: ConnectionState,
    /// Index into `checklist` of the selected pair, if one is selected.
    pub selected_pair: Option<usize>,
    pub local_candidates: Vec<Candidate>,
    pub remote_candidates: Vec<Candidate>,
    /// The pair checklist.
    pub checklist: Vec<CandidatePair>,
    /// Outstanding outbound check transactions, oldest first.
    pub pending_binding_requests: Vec<BindingRequest>,
    /// Per-pair cap on issued check requests.
    pub max_binding_requests: u16,
    /// Silence on the selected pair beyond this moves to `Disconnected`; 0
    /// disables that tier.  In milliseconds.
    pub disconnected_timeout: u64,
    /// Non-zero: silence beyond `failed_timeout + disconnected_timeout`
    /// moves to `Failed`; 0 disables that tier.  In milliseconds.
    pub failed_timeout: u64,
    /// Idle threshold on the selected pair that triggers a keepalive check;
    /// 0 disables keepalives.  In milliseconds.
    pub keepalive_interval: u64,
}

impl AgentInternal {
    /// Every pair indexes existing candidates, no combination is probed
    /// twice, and only a nominated pair is selected.
    pub open spec fn wf(self) -> bool {
        &&& forall|i: int|
            0 <= i < self.checklist@.len() ==> (#[trigger] self.checklist@[i]).local_idx
                < self.local_candidates@.len() && self.checklist@[i].remote_idx
                < self.remote_candidates@.len()
        &&& no_duplicate_pairs(self.checklist@)
        &&& match self.selected_pair {
            Some(s) => s < self.checklist@.len() && self.checklist@[s as int].nominated,
            None => true,
        }
    }

    /// The configuration and lifecycle fields agree.
    pub open spec fn same_config(self, other: AgentInternal) -> bool {
        &&& self.is_controlling == other.is_controlling
        &&& self.lite == other.lite
        &&& self.closed == other.closed
        &&& self.max_binding_requests == other.max_binding_requests
        &&& self.disconnected_timeout == other.disconnected_timeout
        &&& self.failed_timeout == other.failed_timeout
        &&& self.keepalive_interval == other.keepalive_interval
    }

    /// `post` is `pre` with every candidate released: both candidate lists,
    /// the checklist and the selection are empty, everything else is kept.
    pub open spec fn torn_down(pre: AgentInternal, post: AgentInternal) -> bool {
        &&& pre.same_config(post)
        &&& post.connection_state == pre.connection_state
        &&& post.local_candidates@.len() == 0
        &&& post.remote_candidates@.len() == 0
        &&& post.checklist@.len() == 0
        &&& post.selected_pair is None
        &&& post.pending_binding_requests@ == pre.pending_binding_requests@
    }

    /// `post` is `pre` with only the connection state replaced by `s`.
    pub open spec fn only_state_changed(pre: AgentInternal, post: AgentInternal, s: ConnectionState) -> bool {
        &&& pre.same_config(post)
        &&& post.connection_state == s
        &&& post.selected_pair == pre.selected_pair
        &&& post.local_candidates@ == pre.local_candidates@
        &&& post.remote_candidates@ == pre.remote_candidates@
        &&& post.checklist@ == pre.checklist@
        &&& post.pending_binding_requests@ == pre.pending_binding_requests@
    }

    /// A fresh agent: open, state `New`, nothing gathered, nothing selected.
    pub fn new(
        is_controlling: bool,
        lite: bool,
        max_binding_requests: u16,
        disconnected_timeout: u64,
        failed_timeout: u64,
        keepalive_interval: u64,
    ) -> (a: AgentInternal)
        ensures
            a.wf(),
            a.is_controlling == is_controlling,
            a.lite == lite,
            !a.closed,
            a.connection_state == ConnectionState::New,
            a.selected_pair is None,
            a.local_candidates@.len() == 0,
            a.remote_candidates@.len() == 0,
            a.checklist@.len() == 0,
            a.pending_binding_requests@.len() == 0,
            a.max_binding_requests == max_binding_requests,
            a.disconnected_timeout == disconnected_timeout,
            a.failed_timeout == failed_timeout,
            a.keepalive_interval == keepalive_interval,
    {
        AgentInternal {
            is_controlling,
            lite,
            closed: false,
            connection_state: ConnectionState::New,
            selected_pair: None,
            local_candidates: Vec::new(),
            remote_candidates: Vec::new(),
            checklist: Vec::new(),
            pending_binding_requests: Vec::new(),
            max_binding_requests,
            disconnected_timeout,
            failed_timeout,
            keepalive_interval,
        }
    }

    /// Closes the agent.  The first close succeeds and marks the agent
    /// closed; any later close reports `IceError::Closed` and changes
    /// nothing.  Cancelling in-flight gathering and dropping the channels
    /// is the caller's part of closing.
    pub fn close(&mut self) -> (r: Result<(), IceError>)
        ensures
            old(self).closed ==> r == Err::<(), IceError>(IceError::Closed) && *final(self) == *old(
                self,
            ),
            !old(self).closed ==> {
                &&& r == Ok::<(), IceError>(())
                &&& final(self).closed
                &&& final(self).connection_state == old(self).connection_state
                &&& final(self).selected_pair == old(self).selected_pair
                &&& final(self).local_candidates@ == old(self).local_candidates@
                &&& final(self).remote_candidates@ == old(self).remote_candidates@
                &&& final(self).checklist@ == old(self).checklist@
                &&& final(self).pending_binding_requests@ == old(self).pending_binding_requests@
                &&& final(self).is_controlling == old(self).is_controlling
                &&& final(self).lite == old(self).lite
                &&& final(self).max_binding_requests == old(self).max_binding_requests
                &&& final(self).disconnected_timeout == old(self).disconnected_timeout
                &&& final(self).failed_timeout == old(self).failed_timeout
                &&& final(self).keepalive_interval == old(self).keepalive_interval
            },
            final(self).wf() == old(self).wf(),
    {
        if self.closed {
            return Err(IceError::Closed);
        }
        self.closed = true;
        Ok(())
    }

    /// The selected pair's index, if one is selected.
    pub fn get_selected_pair(&self) -> (r: Option<usize>)
        ensures
            r == self.selected_pair,
    {
        self.selected_pair
    }

    /// Releases every candidate: clears both candidate lists and, so that no
    /// pair or selection dangles, the checklist and the selection with them.
    /// Used for restarts, failure and close; the caller closes the sockets
    /// of the candidates it holds.
    pub fn delete_all_candidates(&mut self)
        ensures
            final(self).wf(),
            AgentInternal::torn_down(*old(self), *final(self)),
    {
        self.local_candidates = Vec::new();
        self.remote_candidates = Vec::new();
        self.checklist = Vec::new();
        self.selected_pair = None;
    }

    /// Moves the session to `new_state` if that is a change; entering
    /// `Failed` first releases every candidate.  Returns the state to emit
    /// on the state channel: `Some` exactly when the state changed, so a
    /// repeated transition is a no-op with no notification.
    pub fn update_connection_state(&mut self, new_state: ConnectionState) -> (emitted: Option<
        ConnectionState,
    >)
        requires
            old(self).wf(),
        ensures
            final(self).wf(),
            old(self).connection_state == new_state ==> *final(self) == *old(self) && emitted
                is None,
            old(self).connection_state != new_state ==> {
                &&& emitted == Some(new_state)
                &&& final(self).connection_state == new_state
                &&& (new_state != ConnectionState::Failed ==> AgentInternal::only_state_changed(
                    *old(self),
                    *final(self),
                    new_state,
                ))
                &&& (new_state == ConnectionState::Failed ==> {
                    &&& old(self).same_config(*final(self))
                    &&& final(self).local_candidates@.len() == 0
                    &&& final(self).remote_candidates@.len() == 0
                    &&& final(self).checklist@.len() == 0
                    &&& final(self).selected_pair is None
                    &&& final(self).pending_binding_requests@ == old(
                        self,
                    ).pending_binding_requests@
                })
            },
    {
        if self.connection_state != new_state {
            if new_state == ConnectionState::Failed {
                self.delete_all_candidates();
            }
            self.connection_state = new_state;
            Some(new_state)
        } else {
            None
        }
    }

    /// Selects a pair, or clears the selection.
    ///
    /// With `Some(i)` the pair is nominated, becomes the selected pair, the
    /// session moves to `Connected`, exactly one pair-change signal and the
    /// one-shot connected signal are requested.  With `None` the selection
    /// is cleared with no state transition and no notification.
    pub fn set_selected_pair(&mut self, p: Option<usize>) -> (n: Notifications)
        requires
            old(self).wf(),
            p matches Some(i) ==> i < old(self).checklist@.len(),
        ensures
            final(self).wf(),
            match p {
                Some(i) => {
                    &&& final(self).checklist@ == old(self).checklist@.update(
                        i as int,
                        (CandidatePair { nominated: true, ..old(self).checklist@[i as int] }),
                    )
                    &&& final(self).selected_pair == Some(i)
                    &&& final(self).connection_state == ConnectionState::Connected
                    &&& n.pair_changed
                    &&& n.signal_connected
                    &&& n.state == (if old(self).connection_state != ConnectionState::Connected {
                        Some(ConnectionState::Connected)
                    } else {
                        Option::<ConnectionState>::None
                    })
                    &&& old(self).same_config(*final(self))
                    &&& final(self).local_candidates@ == old(self).local_candidates@
                    &&& final(self).remote_candidates@ == old(self).remote_candidates@
                    &&& final(self).pending_binding_requests@ == old(
                        self,
                    ).pending_binding_requests@
                },
                None => {
                    &&& final(self).selected_pair is None
                    &&& final(self).connection_state == old(self).connection_state
                    &&& final(self).checklist@ == old(self).checklist@
                    &&& final(self).local_candidates@ == old(self).local_candidates@
                    &&& final(self).remote_candidates@ == old(self).remote_candidates@
                    &&& final(self).pending_binding_requests@ == old(
                        self,
                    ).pending_binding_requests@
                    &&& old(self).same_config(*final(self))
                    &&& n == (Notifications { state: None, pair_changed: false, signal_connected: false })
                },
            },
    {
        match p {
            Some(i) => {
                let mut pr = self.checklist[i];
                pr.nominated = true;
                self.checklist.set(i, pr);
                self.selected_pair = Some(i);
                let emitted = self.update_connection_state(ConnectionState::Connected);
                Notifications { state: emitted, pair_changed: true, signal_connected: true }
            },
            None => {
                self.selected_pair = None;
                Notifications { state: None, pair_changed: false, signal_connected: false }
            },
        }
    }
}

} // verus!
