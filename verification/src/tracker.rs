//! The transaction tracker: outstanding outbound check requests awaiting a
//! matching response, with lazy expiry and at-most-once resolution.

use vstd::prelude::*;
use crate::types::{elapsed, elapsed_ms, TransportAddr};
use crate::agent::AgentInternal;

verus! {

/// How long an outbound transaction stays resolvable, in milliseconds: the
/// protocol transaction timeout (on the order of twice the round-trip time;
/// this default covers an unknown round-trip time).
pub const MAX_BINDING_REQUEST_TIMEOUT_MS: u64 = 500;

/// The record of one outbound check request: created when the request is
/// sent, removed when a matching response arrives or the record expires,
/// never mutated.
#[derive(Clone, Copy, PartialEq, Eq, Structural, Debug)]
pub struct BindingRequest {
    /// When the request was sent, in ms.
    pub timestamp: u64,
    pub transaction_id: u128,
    /// The address the request was sent to.
    pub destination: TransportAddr,
    /// Whether the request asserted "use this candidate now".
    pub is_use_candidate: bool,
}

/// A record's age at `now` has reached the expiry window.
pub open spec fn request_expired(r: BindingRequest, now: u64) -> bool {
    elapsed(now, r.timestamp) >= MAX_BINDING_REQUEST_TIMEOUT_MS
}

/// The records still alive at `now`, order preserved.
pub open spec fn purge_expired(rs: Seq<BindingRequest>, now: u64) -> Seq<BindingRequest>
    decreases rs.len(),
{
    if rs.len() == 0 {
        Seq::empty()
    } else {
        let rest = purge_expired(rs.drop_last(), now);
        if !request_expired(rs.last(), now) {
            rest.push(rs.last())
        } else {
            rest
        }
    }
}

/// Index of the first record carrying `id`, if any.
pub open spec fn find_transaction(rs: Seq<BindingRequest>, id: u128) -> Option<int>
    decreases rs.len(),
{
    if rs.len() == 0 {
        None
    } else if rs[0].transaction_id == id {
        Some(0int)
    } else {
        match find_transaction(rs.skip(1), id) {
            Some(j) => Some(j + 1),
            None => None,
        }
    }
}

/// What [`find_transaction`] returns: the first matching index, or proof
/// that no record matches.
pub proof fn lemma_find_transaction(rs: Seq<BindingRequest>, id: u128)
    ensures
        match find_transaction(rs, id) {
            Some(i) => 0 <= i < rs.len() && rs[i].transaction_id == id && forall|k: int|
                0 <= k < i ==> rs[k].transaction_id != id,
            None => forall|k: int| 0 <= k < rs.len() ==> rs[k].transaction_id != id,
        },
    decreases rs.len(),
{
    if rs.len() > 0 && rs[0].transaction_id != id {
        lemma_find_transaction(rs.skip(1), id);
        match find_transaction(rs.skip(1), id) {
            Some(j) => {
                assert(rs[j + 1] == rs.skip(1)[j]);
                assert forall|k: int| 0 <= k < j + 1 implies rs[k].transaction_id != id by {
                    if k > 0 {
                        assert(rs[k] == rs.skip(1)[k - 1]);
                    }
                }
            },
            None => {
                assert forall|k: int| 0 <= k < rs.len() implies rs[k].transaction_id != id by {
                    if k > 0 {
                        assert(rs[k] == rs.skip(1)[k - 1]);
                    }
                }
            },
        }
    }
}

/// Purging keeps only records that were already present: a transaction id
/// absent before purging is absent after it.
pub proof fn lemma_purge_preserves_absence(rs: Seq<BindingRequest>, now: u64, id: u128)
    requires
        forall|k: int| 0 <= k < rs.len() ==> rs[k].transaction_id != id,
    ensures
        forall|k: int|
            0 <= k < purge_expired(rs, now).len() ==> purge_expired(rs, now)[k].transaction_id
                != id,
    decreases rs.len(),
{
    if rs.len() > 0 {
        assert(forall|k: int|
            0 <= k < rs.drop_last().len() ==> rs.drop_last()[k] == rs[k]);
        lemma_purge_preserves_absence(rs.drop_last(), now, id);
        let rest = purge_expired(rs.drop_last(), now);
        if !request_expired(rs.last(), now) {
            assert(rs.last() == rs[rs.len() - 1]);
            assert forall|k: int|
                0 <= k < purge_expired(rs, now).len() implies purge_expired(
                rs,
                now,
            )[k].transaction_id != id by {
                assert(purge_expired(rs, now) == rest.push(rs.last()));
                if k < rest.len() {
                    assert(rest.push(rs.last())[k] == rest[k]);
                } else {
                    assert(rest.push(rs.last())[k] == rs.last());
                }
            }
        }
    }
}

impl AgentInternal {
    /// Drops every pending record whose age at `filter_time` has reached the
    /// expiry window, keeping the order of the survivors.
    pub fn invalidate_pending_binding_requests(&mut self, filter_time: u64)
        ensures
            final(self).pending_binding_requests@ == purge_expired(
                old(self).pending_binding_requests@,
                filter_time,
            ),
            final(self).checklist@ == old(self).checklist@,
            final(self).local_candidates@ == old(self).local_candidates@,
            final(self).remote_candidates@ == old(self).remote_candidates@,
            final(self).selected_pair == old(self).selected_pair,
            final(self).connection_state == old(self).connection_state,
            old(self).same_config(*final(self)),
            final(self).wf() == old(self).wf(),
    {
        let n = self.pending_binding_requests.len();
        let mut kept: Vec<BindingRequest> = Vec::new();
        let mut i: usize = 0;
        while i < n
            invariant
                n == self.pending_binding_requests@.len(),
                i <= n,
                self.pending_binding_requests@ == old(self).pending_binding_requests@,
                kept@ == purge_expired(self.pending_binding_requests@.take(i as int), filter_time),
            decreases n - i,
        {
            let r = self.pending_binding_requests[i];
            proof {
                assert(self.pending_binding_requests@.take(i + 1).drop_last()
                    =~= self.pending_binding_requests@.take(i as int));
                assert(self.pending_binding_requests@.take(i + 1).last() == r);
            }
            if elapsed_ms(filter_time, r.timestamp) < MAX_BINDING_REQUEST_TIMEOUT_MS {
                kept.push(r);
            }
            i = i + 1;
        }
        proof {
            assert(self.pending_binding_requests@.take(n as int)
                =~= self.pending_binding_requests@);
        }
        self.pending_binding_requests = kept;
    }

    /// Records the check request the caller is about to put on the wire,
    /// purging expired records first.  The caller supplies the transaction
    /// id of the built request and sends it afterwards.
    pub fn record_binding_request(
        &mut self,
        now: u64,
        transaction_id: u128,
        destination: TransportAddr,
        is_use_candidate: bool,
    )
        ensures
            final(self).pending_binding_requests@ == purge_expired(
                old(self).pending_binding_requests@,
                now,
            ).push(
                (BindingRequest { timestamp: now, transaction_id, destination, is_use_candidate }),
            ),
            final(self).checklist@ == old(self).checklist@,
            final(self).local_candidates@ == old(self).local_candidates@,
            final(self).remote_candidates@ == old(self).remote_candidates@,
            final(self).selected_pair == old(self).selected_pair,
            final(self).connection_state == old(self).connection_state,
            old(self).same_config(*final(self)),
            final(self).wf() == old(self).wf(),
    {
        self.invalidate_pending_binding_requests(now);
        self.pending_binding_requests.push(
            BindingRequest { timestamp: now, transaction_id, destination, is_use_candidate },
        );
    }

    /// Resolves an inbound success response against the pending records:
    /// purges expired records, then removes and returns the first record
    /// matching `id`.  A record is consumed at most once; a second
    /// resolution of the same id finds nothing.
    pub fn handle_inbound_binding_success(&mut self, id: u128, now: u64) -> (r: Option<
        BindingRequest,
    >)
        ensures
            ({
                let purged = purge_expired(old(self).pending_binding_requests@, now);
                match find_transaction(purged, id) {
                    Some(i) => r == Some(purged[i]) && final(self).pending_binding_requests@
                        == purged.remove(i),
                    None => r is None && final(self).pending_binding_requests@ == purged,
                }
            }),
            final(self).checklist@ == old(self).checklist@,
            final(self).local_candidates@ == old(self).local_candidates@,
            final(self).remote_candidates@ == old(self).remote_candidates@,
            final(self).selected_pair == old(self).selected_pair,
            final(self).connection_state == old(self).connection_state,
            old(self).same_config(*final(self)),
            final(self).wf() == old(self).wf(),
    {
        self.invalidate_pending_binding_requests(now);
        proof {
            lemma_find_transaction(self.pending_binding_requests@, id);
        }
        let mut i: usize = 0;
        let n = self.pending_binding_requests.len();
        while i < n
            invariant
                n == self.pending_binding_requests@.len(),
                i <= n,
                forall|k: int|
                    0 <= k < i ==> self.pending_binding_requests@[k].transaction_id != id,
                self.pending_binding_requests@ == purge_expired(
                    old(self).pending_binding_requests@,
                    now,
                ),
                self.checklist@ == old(self).checklist@,
                self.local_candidates@ == old(self).local_candidates@,
                self.remote_candidates@ == old(self).remote_candidates@,
                self.selected_pair == old(self).selected_pair,
                self.connection_state == old(self).connection_state,
                old(self).same_config(*self),
                self.wf() == old(self).wf(),
            decreases n - i,
        {
            if self.pending_binding_requests[i].transaction_id == id {
                proof {
                    lemma_find_transaction(self.pending_binding_requests@, id);
                }
                let found = self.pending_binding_requests.remove(i);
                return Some(found);
            }
            i = i + 1;
        }
        None
    }
}

} // verus!
