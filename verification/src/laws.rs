//! Laws that relate several operations: transaction lifetime, eventual
//! failure of unanswered pairs, and single admission of a discovered
//! remote candidate.  Laws about a single call stand as that function's
//! `ensures`.

use vstd::prelude::*;
use crate::types::{elapsed, Candidate, CandidatePairState};
use crate::pair::CandidatePair;
use crate::agent::AgentInternal;
use crate::tracker::{
    find_transaction, purge_expired, request_expired, lemma_find_transaction,
    lemma_purge_preserves_absence, BindingRequest, MAX_BINDING_REQUEST_TIMEOUT_MS,
};
use crate::checklist::{
    admit_remote_checklist, admit_remote_idx, admit_remote_remotes, count_same_type,
    find_equal_candidate, lemma_find_equal_candidate, lemma_pairs_for_remote,
    lemma_pairs_for_remote_len,
};
use crate::sched::cycle_pair;

verus! {

/// A transaction recorded at time `t` (over records none of which carries
/// its id) resolves at any lookup time `t2` with `t2 - t` under the expiry
/// window, yielding the record itself; it does not resolve once `t2 - t`
/// reaches the window; and resolution consumes it, so a second resolution
/// of the same id finds nothing.
pub proof fn lemma_transaction_lifecycle(rs: Seq<BindingRequest>, req: BindingRequest, t2: u64)
    requires
        forall|k: int| 0 <= k < rs.len() ==> rs[k].transaction_id != req.transaction_id,
        req.timestamp <= t2,
    ensures
        ({
            let recorded = purge_expired(rs, req.timestamp).push(req);
            let purged = purge_expired(recorded, t2);
            &&& (t2 - req.timestamp < MAX_BINDING_REQUEST_TIMEOUT_MS ==> match find_transaction(
                purged,
                req.transaction_id,
            ) {
                Some(i) => purged[i] == req && find_transaction(
                    purged.remove(i),
                    req.transaction_id,
                ) is None,
                None => false,
            })
            &&& (t2 - req.timestamp >= MAX_BINDING_REQUEST_TIMEOUT_MS ==> find_transaction(
                purged,
                req.transaction_id,
            ) is None)
        }),
{
    let id = req.transaction_id;
    let p1 = purge_expired(rs, req.timestamp);
    lemma_purge_preserves_absence(rs, req.timestamp, id);
    let recorded = p1.push(req);
    assert(recorded.drop_last() =~= p1);
    assert(recorded.last() == req);
    let q = purge_expired(p1, t2);
    lemma_purge_preserves_absence(p1, t2, id);
    let purged = purge_expired(recorded, t2);
    if t2 - req.timestamp < MAX_BINDING_REQUEST_TIMEOUT_MS {
        assert(elapsed(t2, req.timestamp) == t2 - req.timestamp);
        assert(!request_expired(req, t2));
        assert(purged == q.push(req));
        lemma_find_transaction(purged, id);
        match find_transaction(purged, id) {
            Some(i) => {
                if i < q.len() {
                    assert(purged[i] == q[i]);
                    assert(false);
                }
                assert(purged[i] == req);
                assert(purged.remove(i) =~= q);
                lemma_find_transaction(q, id);
                match find_transaction(q, id) {
                    Some(j) => {
                        assert(q[j].transaction_id != id);
                        assert(false);
                    },
                    None => {},
                }
            },
            None => {
                assert(purged[q.len() as int] == req);
                assert(false);
            },
        }
    } else {
        assert(elapsed(t2, req.timestamp) == t2 - req.timestamp);
        assert(request_expired(req, t2));
        assert(purged == q);
        lemma_find_transaction(purged, id);
        match find_transaction(purged, id) {
            Some(i) => {
                assert(purged[i].transaction_id != id);
                assert(false);
            },
            None => {},
        }
    }
}

/// The pair a number of scheduler cycles leaves behind, starting from `p`.
pub open spec fn cycle_pair_iter(p: CandidatePair, max: u16, k: nat) -> CandidatePair
    decreases k,
{
    if k == 0 {
        p
    } else {
        cycle_pair(cycle_pair_iter(p, max, (k - 1) as nat), max)
    }
}

/// With a per-pair budget of `max` check requests, a fresh pair that never
/// hears a successful response is still being checked through cycle `max`,
/// with exactly one request issued per cycle, and from cycle `max + 1` on
/// it is `Failed` with exactly `max` requests ever issued: never fewer,
/// never more.
pub proof fn lemma_pair_fails_after_max_checks(p: CandidatePair, max: u16, k: nat)
    requires
        p.state == CandidatePairState::Waiting,
        p.binding_request_count == 0,
    ensures
        ({
            let q = cycle_pair_iter(p, max, k);
            &&& (1 <= k <= max ==> q.state == CandidatePairState::InProgress
                && q.binding_request_count == k)
            &&& (k > max ==> q.state == CandidatePairState::Failed && q.binding_request_count
                == max)
        }),
    decreases k,
{
    if k > 0 {
        lemma_pair_fails_after_max_checks(p, max, (k - 1) as nat);
    }
}

/// Admitting a remote candidate no equal of which is known adds exactly
/// that one candidate, at the end of the list, and exactly one fresh
/// (`Waiting`, unnominated, zero-attempt) pair per existing local
/// candidate of its network type, each probing the new candidate, the
/// existing pairs untouched.
pub proof fn lemma_admit_remote_new(pre: AgentInternal, c: Candidate)
    requires
        find_equal_candidate(pre.remote_candidates@, c) is None,
        pre.local_candidates@.len() <= usize::MAX,
        pre.remote_candidates@.len() <= usize::MAX,
    ensures
        admit_remote_remotes(pre, c).len() == pre.remote_candidates@.len() + 1,
        admit_remote_remotes(pre, c).last() == c,
        admit_remote_idx(pre, c) == pre.remote_candidates@.len() as int,
        admit_remote_checklist(pre, c).len() == pre.checklist@.len() + count_same_type(
            pre.local_candidates@,
            pre.local_candidates@.len() as int,
            c.network_type,
        ),
        forall|k: int|
            0 <= k < pre.checklist@.len() ==> admit_remote_checklist(pre, c)[k]
                == pre.checklist@[k],
        forall|k: int|
            pre.checklist@.len() <= k < admit_remote_checklist(pre, c).len() ==> ({
                let p = #[trigger] admit_remote_checklist(pre, c)[k];
                &&& p.remote_idx == pre.remote_candidates@.len()
                &&& p.local_idx < pre.local_candidates@.len()
                &&& pre.local_candidates@[p.local_idx as int].network_type == c.network_type
                &&& p == CandidatePair::new_spec(
                    p.local_idx,
                    p.remote_idx,
                    pre.local_candidates@[p.local_idx as int].priority,
                    c.priority,
                    pre.is_controlling,
                )
            }),
{
    let n = pre.local_candidates@.len() as int;
    let r_idx = pre.remote_candidates@.len() as usize;
    lemma_pairs_for_remote_len(
        pre.local_candidates@,
        n,
        c.network_type,
        r_idx,
        c.priority,
        pre.is_controlling,
    );
    lemma_pairs_for_remote(
        pre.local_candidates@,
        n,
        c.network_type,
        r_idx,
        c.priority,
        pre.is_controlling,
    );
    let ps = crate::checklist::pairs_for_remote(
        pre.local_candidates@,
        n,
        c.network_type,
        r_idx,
        c.priority,
        pre.is_controlling,
    );
    assert forall|k: int|
        pre.checklist@.len() <= k < admit_remote_checklist(pre, c).len() implies ({
        let p = #[trigger] admit_remote_checklist(pre, c)[k];
        &&& p.remote_idx == pre.remote_candidates@.len()
        &&& p.local_idx < pre.local_candidates@.len()
        &&& pre.local_candidates@[p.local_idx as int].network_type == c.network_type
        &&& p == CandidatePair::new_spec(
            p.local_idx,
            p.remote_idx,
            pre.local_candidates@[p.local_idx as int].priority,
            c.priority,
            pre.is_controlling,
        )
    }) by {
        assert(admit_remote_checklist(pre, c)[k] == ps[k - pre.checklist@.len()]);
    }
}

/// A repeated admission is a no-op: as soon as any remote candidate
/// carries `c`'s identity — as one does right after `c` was admitted,
/// whether or not its liveness timestamps moved since — admitting `c`
/// again leaves both the candidate list and the checklist unchanged.
pub proof fn lemma_admit_remote_idempotent(post: AgentInternal, c: Candidate, j: int)
    requires
        0 <= j < post.remote_candidates@.len(),
        post.remote_candidates@[j].same_identity_spec(c),
    ensures
        admit_remote_remotes(post, c) == post.remote_candidates@,
        admit_remote_checklist(post, c) == post.checklist@,
        0 <= admit_remote_idx(post, c) < post.remote_candidates@.len(),
{
    lemma_find_equal_candidate(post.remote_candidates@, c);
    match find_equal_candidate(post.remote_candidates@, c) {
        Some(_) => {},
        None => {
            assert(!post.remote_candidates@[j].same_identity_spec(c));
            assert(false);
        },
    }
}

} // verus!
