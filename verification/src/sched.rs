//! The connectivity-check scheduler and the liveness monitor: one pass
//! advances every pair through the check protocol and says which checks to
//! issue; periodic validation of the selected pair drives the
//! connected/disconnected/failed tiers of the timeout policy.

use vstd::prelude::*;
use crate::types::{elapsed, elapsed_ms, CandidatePairState, ConnectionState};
use crate::pair::CandidatePair;
use crate::agent::AgentInternal;

verus! {

/// A connectivity check to issue, naming the pair's candidates by index.
/// The caller builds the authenticated request, records its transaction
/// with `record_binding_request`, and sends it.
#[derive(Clone, Copy, PartialEq, Eq, Structural, Debug)]
pub struct CheckTarget {
    pub local_idx: usize,
    pub remote_idx: usize,
}

/// The pair still takes part in check cycles.
pub open spec fn pair_cycles(p: CandidatePair) -> bool {
    p.state == CandidatePairState::Waiting || p.state == CandidatePairState::InProgress
}

/// A cycle schedules a check for this pair: it still cycles and its request
/// budget is not yet exhausted.
pub open spec fn cycle_pings(p: CandidatePair, max: u16) -> bool {
    pair_cycles(p) && p.binding_request_count < max
}

/// One scheduler cycle's effect on a pair.  A `Waiting` pair is promoted to
/// `InProgress`; a pair that has already spent its `max` check requests
/// without an answer moves to `Failed` with no further request; otherwise
/// the attempt counter advances with the scheduled check.  `Succeeded` and
/// `Failed` pairs are untouched, so a pair never leaves `Failed`.
pub open spec fn cycle_pair(p: CandidatePair, max: u16) -> CandidatePair {
    if !pair_cycles(p) {
        p
    } else if p.binding_request_count >= max {
        CandidatePair { state: CandidatePairState::Failed, ..p }
    } else {
        CandidatePair {
            state: CandidatePairState::InProgress,
            binding_request_count: (p.binding_request_count + 1) as u16,
            ..p
        }
    }
}

/// The checks one scheduler pass issues over the first `n` pairs, in
/// checklist order.
pub open spec fn ping_list(cl: Seq<CandidatePair>, n: int, max: u16) -> Seq<CheckTarget>
    decreases n,
{
    if n <= 0 {
        Seq::empty()
    } else {
        let pre = ping_list(cl, n - 1, max);
        if cycle_pings(cl[n - 1], max) {
            pre.push(CheckTarget { local_idx: cl[n - 1].local_idx, remote_idx: cl[n - 1].remote_idx })
        } else {
            pre
        }
    }
}

impl AgentInternal {
    /// One scheduler pass: advances every pair by one check cycle and
    /// returns, in checklist order, the checks to put on the wire.  The
    /// scan completes before any check is issued, so one pair's request
    /// cannot perturb the decisions made for the others.
    pub fn ping_all_candidates(&mut self) -> (targets: Vec<CheckTarget>)
        requires
            old(self).wf(),
        ensures
            final(self).wf(),
            final(self).checklist@.len() == old(self).checklist@.len(),
            forall|k: int|
                0 <= k < old(self).checklist@.len() ==> final(self).checklist@[k] == cycle_pair(
                    #[trigger] old(self).checklist@[k],
                    old(self).max_binding_requests,
                ),
            targets@ == ping_list(
                old(self).checklist@,
                old(self).checklist@.len() as int,
                old(self).max_binding_requests,
            ),
            forall|t: int|
                0 <= t < targets@.len() ==> (#[trigger] targets@[t]).local_idx < old(
                    self,
                ).local_candidates@.len() && targets@[t].remote_idx < old(
                    self,
                ).remote_candidates@.len(),
            final(self).local_candidates@ == old(self).local_candidates@,
            final(self).remote_candidates@ == old(self).remote_candidates@,
            final(self).selected_pair == old(self).selected_pair,
            final(self).connection_state == old(self).connection_state,
            final(self).pending_binding_requests@ == old(self).pending_binding_requests@,
            old(self).same_config(*final(self)),
    {
        let mut targets: Vec<CheckTarget> = Vec::new();
        let mut i: usize = 0;
        let n = self.checklist.len();
        let ghost cl0 = old(self).checklist@;
        let ghost max = old(self).max_binding_requests;
        while i < n
            invariant
                i <= n,
                n == self.checklist@.len(),
                cl0.len() == n,
                cl0 == old(self).checklist@,
                max == old(self).max_binding_requests,
                old(self).wf(),
                self.max_binding_requests == max,
                forall|k: int| 0 <= k < i ==> self.checklist@[k] == cycle_pair(#[trigger] cl0[k], max),
                forall|k: int| i <= k < n ==> self.checklist@[k] == cl0[k],
                targets@ == ping_list(cl0, i as int, max),
                forall|t: int|
                    0 <= t < targets@.len() ==> (#[trigger] targets@[t]).local_idx < old(
                        self,
                    ).local_candidates@.len() && targets@[t].remote_idx < old(
                        self,
                    ).remote_candidates@.len(),
                self.local_candidates@ == old(self).local_candidates@,
                self.remote_candidates@ == old(self).remote_candidates@,
                self.selected_pair == old(self).selected_pair,
                self.connection_state == old(self).connection_state,
                self.pending_binding_requests@ == old(self).pending_binding_requests@,
                old(self).same_config(*self),
            decreases n - i,
        {
            let p = self.checklist[i];
            if matches!(p.state, CandidatePairState::Waiting) || matches!(
                p.state,
                CandidatePairState::InProgress,
            ) {
                if p.binding_request_count >= self.max_binding_requests {
                    let mut np = p;
                    np.state = CandidatePairState::Failed;
                    self.checklist.set(i, np);
                } else {
                    let mut np = p;
                    np.state = CandidatePairState::InProgress;
                    np.binding_request_count = p.binding_request_count + 1;
                    self.checklist.set(i, np);
                    targets.push(CheckTarget { local_idx: p.local_idx, remote_idx: p.remote_idx });
                }
            }
            proof {
                assert(self.checklist@[i as int] == cycle_pair(cl0[i as int], max));
                assert(targets@ =~= ping_list(cl0, i + 1, max));
            }
            i = i + 1;
        }
        proof {
            assert forall|a: int, b: int|
                0 <= a < b < self.checklist@.len() implies !crate::agent::same_combination(
                #[trigger] self.checklist@[a],
                #[trigger] self.checklist@[b],
            ) by {
                assert(!crate::agent::same_combination(cl0[a], cl0[b]));
                assert(self.checklist@[a] == cycle_pair(cl0[a], max));
                assert(self.checklist@[b] == cycle_pair(cl0[b], max));
            }
            assert forall|k: int|
                0 <= k < self.checklist@.len() implies (#[trigger] self.checklist@[k]).local_idx
                < self.local_candidates@.len() && self.checklist@[k].remote_idx
                < self.remote_candidates@.len() by {
                assert(self.checklist@[k] == cycle_pair(cl0[k], max));
                assert(cl0[k].local_idx < old(self).local_candidates@.len());
            }
            if self.selected_pair is Some {
                let s = self.selected_pair.unwrap() as int;
                assert(self.checklist@[s] == cycle_pair(cl0[s], max));
                assert(cl0[s].nominated);
            }
        }
        targets
    }

    /// The keepalive decision for `now`: `Some` check target exactly when a
    /// pair is selected, a keepalive interval is configured, and either
    /// direction of the selected pair has been idle longer than that
    /// interval.  The check is a full request rather than a one-way
    /// indication, so it doubles as consent revalidation.
    pub fn check_keepalive(&self, now: u64) -> (t: Option<CheckTarget>)
        requires
            self.wf(),
        ensures
            match self.selected_pair {
                Some(s) => ({
                    let p = self.checklist@[s as int];
                    let last_sent = self.local_candidates@[p.local_idx as int].last_sent;
                    let last_received = self.remote_candidates@[p.remote_idx as int].last_received;
                    if self.keepalive_interval != 0 && (elapsed(now, last_sent)
                        > self.keepalive_interval || elapsed(now, last_received)
                        > self.keepalive_interval) {
                        t == Some(CheckTarget { local_idx: p.local_idx, remote_idx: p.remote_idx })
                    } else {
                        t is None
                    }
                }),
                None => t is None,
            },
    {
        match self.selected_pair {
            Some(s) => {
                let p = self.checklist[s];
                let last_sent = elapsed_ms(now, self.local_candidates[p.local_idx].last_sent);
                let last_received = elapsed_ms(
                    now,
                    self.remote_candidates[p.remote_idx].last_received,
                );
                if self.keepalive_interval != 0 && (last_sent > self.keepalive_interval
                    || last_received > self.keepalive_interval) {
                    Some(CheckTarget { local_idx: p.local_idx, remote_idx: p.remote_idx })
                } else {
                    None
                }
            },
            None => None,
        }
    }
}

/// Where the multi-tier timeout policy puts the session after `silence`
/// milliseconds without traffic from the selected pair's remote side.  A
/// non-zero fail threshold combines with the disconnect threshold into one
/// time-to-failure budget; a zero threshold disables its tier.
pub open spec fn liveness_verdict(
    disconnected_timeout: u64,
    failed_timeout: u64,
    silence: int,
) -> ConnectionState {
    let total: int = if failed_timeout != 0 {
        failed_timeout + disconnected_timeout
    } else {
        0
    };
    if total != 0 && silence > total {
        ConnectionState::Failed
    } else if disconnected_timeout != 0 && silence > disconnected_timeout {
        ConnectionState::Disconnected
    } else {
        ConnectionState::Connected
    }
}

impl AgentInternal {
    /// Checks that the selected pair is still live at `now`.  Returns
    /// whether a pair was selected at all, and the state change to emit if
    /// the verdict moved the session.  A `Failed` verdict tears the agent
    /// down like any entry into `Failed`.
    pub fn validate_selected_pair(&mut self, now: u64) -> (r: (bool, Option<ConnectionState>))
        requires
            old(self).wf(),
        ensures
            final(self).wf(),
            match old(self).selected_pair {
                Some(s) => ({
                    let pre = *old(self);
                    let p = pre.checklist@[s as int];
                    let silence = elapsed(
                        now,
                        pre.remote_candidates@[p.remote_idx as int].last_received,
                    );
                    let verdict = liveness_verdict(
                        pre.disconnected_timeout,
                        pre.failed_timeout,
                        silence,
                    );
                    &&& r.0 == true
                    &&& final(self).connection_state == verdict
                    &&& r.1 == (if pre.connection_state != verdict {
                        Some(verdict)
                    } else {
                        Option::<ConnectionState>::None
                    })
                    &&& (pre.connection_state == verdict ==> *final(self) == pre)
                    &&& (pre.connection_state != verdict && verdict != ConnectionState::Failed
                        ==> AgentInternal::only_state_changed(pre, *final(self), verdict))
                    &&& (pre.connection_state != verdict && verdict == ConnectionState::Failed ==> {
                        &&& pre.same_config(*final(self))
                        &&& final(self).local_candidates@.len() == 0
                        &&& final(self).remote_candidates@.len() == 0
                        &&& final(self).checklist@.len() == 0
                        &&& final(self).selected_pair is None
                        &&& final(self).pending_binding_requests@ == pre.pending_binding_requests@
                    })
                }),
                None => r == (false, Option::<ConnectionState>::None) && *final(self) == *old(self),
            },
    {
        match self.selected_pair {
            Some(s) => {
                let p = self.checklist[s];
                let last_received = self.remote_candidates[p.remote_idx].last_received;
                let silence = elapsed_ms(now, last_received);
                let total: u128 = if self.failed_timeout != 0 {
                    self.failed_timeout as u128 + self.disconnected_timeout as u128
                } else {
                    0
                };
                let emitted = if total != 0 && (silence as u128) > total {
                    self.update_connection_state(ConnectionState::Failed)
                } else if self.disconnected_timeout != 0 && silence > self.disconnected_timeout {
                    self.update_connection_state(ConnectionState::Disconnected)
                } else {
                    self.update_connection_state(ConnectionState::Connected)
                };
                (true, emitted)
            },
            None => (false, None),
        }
    }
}

} // verus!
