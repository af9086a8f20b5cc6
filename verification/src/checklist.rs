//! The pair registry: candidate admission, lazy pair creation, lookup, and
//! priority-based selection of the best available pair.

use vstd::prelude::*;
use crate::types::{Candidate, CandidatePairState, NetworkType, TransportAddr};
use crate::pair::CandidatePair;
use crate::agent::AgentInternal;

verus! {

/// The candidate serves `nt` at `addr`.
pub open spec fn candidate_matches_addr(c: Candidate, nt: NetworkType, addr: TransportAddr) -> bool {
    c.network_type == nt && c.addr == addr
}

/// Index of the first remote candidate serving `nt` at `addr`, if any.
pub open spec fn find_remote_spec(
    remotes: Seq<Candidate>,
    nt: NetworkType,
    addr: TransportAddr,
) -> Option<int>
    decreases remotes.len(),
{
    if remotes.len() == 0 {
        None
    } else if candidate_matches_addr(remotes[0], nt, addr) {
        Some(0int)
    } else {
        match find_remote_spec(remotes.skip(1), nt, addr) {
            Some(j) => Some(j + 1),
            None => None,
        }
    }
}

/// What [`find_remote_spec`] returns: the first matching index, or proof
/// that no candidate matches.
pub proof fn lemma_find_remote_spec(remotes: Seq<Candidate>, nt: NetworkType, addr: TransportAddr)
    ensures
        match find_remote_spec(remotes, nt, addr) {
            Some(i) => 0 <= i < remotes.len() && candidate_matches_addr(remotes[i], nt, addr)
                && forall|k: int|
                0 <= k < i ==> !candidate_matches_addr(remotes[k], nt, addr),
            None => forall|k: int|
                0 <= k < remotes.len() ==> !candidate_matches_addr(remotes[k], nt, addr),
        },
    decreases remotes.len(),
{
    if remotes.len() > 0 && !candidate_matches_addr(remotes[0], nt, addr) {
        lemma_find_remote_spec(remotes.skip(1), nt, addr);
        match find_remote_spec(remotes.skip(1), nt, addr) {
            Some(j) => {
                assert(remotes[j + 1] == remotes.skip(1)[j]);
                assert forall|k: int|
                    0 <= k < j + 1 implies !candidate_matches_addr(remotes[k], nt, addr) by {
                    if k > 0 {
                        assert(remotes[k] == remotes.skip(1)[k - 1]);
                    }
                }
            },
            None => {
                assert forall|k: int|
                    0 <= k < remotes.len() implies !candidate_matches_addr(remotes[k], nt, addr) by {
                    if k > 0 {
                        assert(remotes[k] == remotes.skip(1)[k - 1]);
                    }
                }
            },
        }
    }
}

/// Index of the first candidate with the same identity as `c`, if any.
pub open spec fn find_equal_candidate(cands: Seq<Candidate>, c: Candidate) -> Option<int>
    decreases cands.len(),
{
    if cands.len() == 0 {
        None
    } else if cands[0].same_identity_spec(c) {
        Some(0int)
    } else {
        match find_equal_candidate(cands.skip(1), c) {
            Some(j) => Some(j + 1),
            None => None,
        }
    }
}

/// What [`find_equal_candidate`] returns: the first identity match, or
/// proof that none exists.
pub proof fn lemma_find_equal_candidate(cands: Seq<Candidate>, c: Candidate)
    ensures
        match find_equal_candidate(cands, c) {
            Some(i) => 0 <= i < cands.len() && cands[i].same_identity_spec(c) && forall|k: int|
                0 <= k < i ==> !cands[k].same_identity_spec(c),
            None => forall|k: int| 0 <= k < cands.len() ==> !cands[k].same_identity_spec(c),
        },
    decreases cands.len(),
{
    if cands.len() > 0 && !cands[0].same_identity_spec(c) {
        lemma_find_equal_candidate(cands.skip(1), c);
        match find_equal_candidate(cands.skip(1), c) {
            Some(j) => {
                assert(cands[j + 1] == cands.skip(1)[j]);
                assert forall|k: int|
                    0 <= k < j + 1 implies !cands[k].same_identity_spec(c) by {
                    if k > 0 {
                        assert(cands[k] == cands.skip(1)[k - 1]);
                    }
                }
            },
            None => {
                assert forall|k: int|
                    0 <= k < cands.len() implies !cands[k].same_identity_spec(c) by {
                    if k > 0 {
                        assert(cands[k] == cands.skip(1)[k - 1]);
                    }
                }
            },
        }
    }
}

/// How many of the first `n` candidates serve network type `nt`.
pub open spec fn count_same_type(cands: Seq<Candidate>, n: int, nt: NetworkType) -> int
    decreases n,
{
    if n <= 0 {
        0
    } else {
        count_same_type(cands, n - 1, nt) + (if cands[n - 1].network_type == nt {
            1int
        } else {
            0int
        })
    }
}

/// The fresh pairs that admitting remote candidate number `r_idx` (priority
/// `r_pri`) creates against the first `n` local candidates: one per local
/// candidate of network type `nt`, in list order.
pub open spec fn pairs_for_remote(
    locals: Seq<Candidate>,
    n: int,
    nt: NetworkType,
    r_idx: usize,
    r_pri: u32,
    controlling: bool,
) -> Seq<CandidatePair>
    decreases n,
{
    if n <= 0 {
        Seq::empty()
    } else {
        let pre = pairs_for_remote(locals, n - 1, nt, r_idx, r_pri, controlling);
        if locals[n - 1].network_type == nt {
            pre.push(
                CandidatePair::new_spec(
                    (n - 1) as usize,
                    r_idx,
                    locals[n - 1].priority,
                    r_pri,
                    controlling,
                ),
            )
        } else {
            pre
        }
    }
}

/// The fresh pairs that admitting local candidate number `l_idx` (priority
/// `l_pri`) creates against the first `n` remote candidates: one per remote
/// candidate of network type `nt`, in list order.
pub open spec fn pairs_for_local(
    remotes: Seq<Candidate>,
    n: int,
    nt: NetworkType,
    l_idx: usize,
    l_pri: u32,
    controlling: bool,
) -> Seq<CandidatePair>
    decreases n,
{
    if n <= 0 {
        Seq::empty()
    } else {
        let pre = pairs_for_local(remotes, n - 1, nt, l_idx, l_pri, controlling);
        if remotes[n - 1].network_type == nt {
            pre.push(
                CandidatePair::new_spec(
                    l_idx,
                    (n - 1) as usize,
                    l_pri,
                    remotes[n - 1].priority,
                    controlling,
                ),
            )
        } else {
            pre
        }
    }
}

/// [`pairs_for_remote`] yields exactly one pair per local candidate of the
/// network type.
pub proof fn lemma_pairs_for_remote_len(
    locals: Seq<Candidate>,
    n: int,
    nt: NetworkType,
    r_idx: usize,
    r_pri: u32,
    controlling: bool,
)
    requires
        0 <= n,
    ensures
        pairs_for_remote(locals, n, nt, r_idx, r_pri, controlling).len() == count_same_type(
            locals,
            n,
            nt,
        ),
    decreases n,
{
    if n > 0 {
        lemma_pairs_for_remote_len(locals, n - 1, nt, r_idx, r_pri, controlling);
    }
}

/// Shape of [`pairs_for_remote`]: exactly one fresh pair per local
/// candidate of the network type, each against remote index `r_idx`, in
/// order of strictly increasing local index.
pub proof fn lemma_pairs_for_remote(
    locals: Seq<Candidate>,
    n: int,
    nt: NetworkType,
    r_idx: usize,
    r_pri: u32,
    controlling: bool,
)
    requires
        0 <= n <= locals.len(),
        locals.len() <= usize::MAX,
    ensures
        ({
            let ps = pairs_for_remote(locals, n, nt, r_idx, r_pri, controlling);
            &&& ps.len() == count_same_type(locals, n, nt)
            &&& forall|k: int|
                0 <= k < ps.len() ==> (#[trigger] ps[k]) == CandidatePair::new_spec(
                    ps[k].local_idx,
                    r_idx,
                    locals[ps[k].local_idx as int].priority,
                    r_pri,
                    controlling,
                ) && ps[k].local_idx < n && locals[ps[k].local_idx as int].network_type == nt
            &&& forall|k1: int, k2: int|
                0 <= k1 < k2 < ps.len() ==> (#[trigger] ps[k1]).local_idx < (
                #[trigger] ps[k2]).local_idx
        }),
    decreases n,
{
    if n > 0 {
        lemma_pairs_for_remote(locals, n - 1, nt, r_idx, r_pri, controlling);
        let pre = pairs_for_remote(locals, n - 1, nt, r_idx, r_pri, controlling);
        let ps = pairs_for_remote(locals, n, nt, r_idx, r_pri, controlling);
        if locals[n - 1].network_type == nt {
            let q = CandidatePair::new_spec(
                (n - 1) as usize,
                r_idx,
                locals[n - 1].priority,
                r_pri,
                controlling,
            );
            assert(ps == pre.push(q));
            assert forall|k: int|
                0 <= k < ps.len() implies (#[trigger] ps[k]) == CandidatePair::new_spec(
                ps[k].local_idx,
                r_idx,
                locals[ps[k].local_idx as int].priority,
                r_pri,
                controlling,
            ) && ps[k].local_idx < n && locals[ps[k].local_idx as int].network_type == nt by {
                if k < pre.len() {
                    assert(ps[k] == pre[k]);
                } else {
                    assert(ps[k] == q);
                }
            }
            assert forall|k1: int, k2: int|
                0 <= k1 < k2 < ps.len() implies (#[trigger] ps[k1]).local_idx < (
            #[trigger] ps[k2]).local_idx by {
                assert(ps[k1] == pre[k1]);
                if k2 < pre.len() {
                    assert(ps[k2] == pre[k2]);
                } else {
                    assert(ps[k2] == q);
                    assert(pre[k1].local_idx < n - 1);
                }
            }
        } else {
            assert(ps == pre);
        }
    }
}

/// Index the admitted remote candidate ends up at: the first equal
/// candidate's, or one past the end when it is new.
pub open spec fn admit_remote_idx(pre: AgentInternal, c: Candidate) -> int {
    match find_equal_candidate(pre.remote_candidates@, c) {
        Some(j) => j,
        None => pre.remote_candidates@.len() as int,
    }
}

/// The remote candidate list after admitting `c`: unchanged when an equal
/// candidate already exists, else extended by `c`.
pub open spec fn admit_remote_remotes(pre: AgentInternal, c: Candidate) -> Seq<Candidate> {
    match find_equal_candidate(pre.remote_candidates@, c) {
        Some(_) => pre.remote_candidates@,
        None => pre.remote_candidates@.push(c),
    }
}

/// The checklist after admitting `c` as a remote candidate: unchanged when
/// an equal candidate already exists, else extended by one fresh pair per
/// local candidate of `c`'s network type.
pub open spec fn admit_remote_checklist(pre: AgentInternal, c: Candidate) -> Seq<CandidatePair> {
    match find_equal_candidate(pre.remote_candidates@, c) {
        Some(_) => pre.checklist@,
        None => pre.checklist@ + pairs_for_remote(
            pre.local_candidates@,
            pre.local_candidates@.len() as int,
            c.network_type,
            pre.remote_candidates@.len() as usize,
            c.priority,
            pre.is_controlling,
        ),
    }
}

/// Index the admitted local candidate ends up at.
pub open spec fn admit_local_idx(pre: AgentInternal, c: Candidate) -> int {
    match find_equal_candidate(pre.local_candidates@, c) {
        Some(j) => j,
        None => pre.local_candidates@.len() as int,
    }
}

/// The local candidate list after admitting `c`.
pub open spec fn admit_local_locals(pre: AgentInternal, c: Candidate) -> Seq<Candidate> {
    match find_equal_candidate(pre.local_candidates@, c) {
        Some(_) => pre.local_candidates@,
        None => pre.local_candidates@.push(c),
    }
}

/// The checklist after admitting `c` as a local candidate.
pub open spec fn admit_local_checklist(pre: AgentInternal, c: Candidate) -> Seq<CandidatePair> {
    match find_equal_candidate(pre.local_candidates@, c) {
        Some(_) => pre.checklist@,
        None => pre.checklist@ + pairs_for_local(
            pre.remote_candidates@,
            pre.remote_candidates@.len() as int,
            c.network_type,
            pre.local_candidates@.len() as usize,
            c.priority,
            pre.is_controlling,
        ),
    }
}

/// Pair `i` is the one the selection yields: not `Failed`, of maximal
/// priority among the pairs not `Failed`, and the earliest such pair on a
/// tie.
pub open spec fn best_available_at(cl: Seq<CandidatePair>, i: int) -> bool {
    &&& 0 <= i < cl.len()
    &&& cl[i].state != CandidatePairState::Failed
    &&& forall|k: int|
        0 <= k < cl.len() && (#[trigger] cl[k]).state != CandidatePairState::Failed
            ==> cl[k].priority_spec() <= cl[i].priority_spec()
    &&& forall|k: int|
        0 <= k < i && (#[trigger] cl[k]).state != CandidatePairState::Failed
            ==> cl[k].priority_spec() < cl[i].priority_spec()
}

impl AgentInternal {
    /// Appends a fresh pair over the two candidates.  Guarding against a
    /// duplicate combination is the caller's responsibility, stated here as
    /// the precondition.
    pub fn add_pair(&mut self, local_idx: usize, remote_idx: usize)
        requires
            old(self).wf(),
            local_idx < old(self).local_candidates@.len(),
            remote_idx < old(self).remote_candidates@.len(),
            forall|k: int|
                0 <= k < old(self).checklist@.len() ==> !((#[trigger] old(
                    self,
                ).checklist@[k]).local_idx == local_idx && old(self).checklist@[k].remote_idx
                    == remote_idx),
        ensures
            final(self).wf(),
            final(self).checklist@ == old(self).checklist@.push(
                CandidatePair::new_spec(
                    local_idx,
                    remote_idx,
                    old(self).local_candidates@[local_idx as int].priority,
                    old(self).remote_candidates@[remote_idx as int].priority,
                    old(self).is_controlling,
                ),
            ),
            final(self).local_candidates@ == old(self).local_candidates@,
            final(self).remote_candidates@ == old(self).remote_candidates@,
            final(self).selected_pair == old(self).selected_pair,
            final(self).connection_state == old(self).connection_state,
            final(self).pending_binding_requests@ == old(self).pending_binding_requests@,
            old(self).same_config(*final(self)),
    {
        let local = self.local_candidates[local_idx];
        let remote = self.remote_candidates[remote_idx];
        let p = CandidatePair::new(local_idx, remote_idx, &local, &remote, self.is_controlling);
        self.checklist.push(p);
    }

    /// Linear lookup of the pair probing exactly this combination; by the
    /// no-duplicates invariant at most one exists.
    pub fn find_pair(&self, local_idx: usize, remote_idx: usize) -> (r: Option<usize>)
        ensures
            match r {
                Some(i) => i < self.checklist@.len() && self.checklist@[i as int].local_idx
                    == local_idx && self.checklist@[i as int].remote_idx == remote_idx && forall|
                    k: int,
                |
                    0 <= k < i ==> !((#[trigger] self.checklist@[k]).local_idx == local_idx
                        && self.checklist@[k].remote_idx == remote_idx),
                None => forall|k: int|
                    0 <= k < self.checklist@.len() ==> !((#[trigger] self.checklist@[k]).local_idx
                        == local_idx && self.checklist@[k].remote_idx == remote_idx),
            },
    {
        let mut i: usize = 0;
        let n = self.checklist.len();
        while i < n
            invariant
                i <= n,
                n == self.checklist@.len(),
                forall|k: int|
                    0 <= k < i ==> !((#[trigger] self.checklist@[k]).local_idx == local_idx
                        && self.checklist@[k].remote_idx == remote_idx),
            decreases n - i,
        {
            if self.checklist[i].local_idx == local_idx && self.checklist[i].remote_idx
                == remote_idx {
                return Some(i);
            }
            i = i + 1;
        }
        None
    }

    /// Index of the best available pair: the first pair, in checklist
    /// order, of numerically greatest priority among those not `Failed`.
    /// `None` exactly when every pair has failed (or none exists).
    pub fn get_best_available_candidate_pair_index(&self) -> (r: Option<usize>)
        ensures
            match r {
                Some(i) => best_available_at(self.checklist@, i as int),
                None => forall|k: int|
                    0 <= k < self.checklist@.len() ==> (#[trigger] self.checklist@[k]).state
                        == CandidatePairState::Failed,
            },
    {
        let mut best: Option<usize> = None;
        let mut i: usize = 0;
        let n = self.checklist.len();
        while i < n
            invariant
                i <= n,
                n == self.checklist@.len(),
                match best {
                    Some(b) => {
                        &&& b < i
                        &&& self.checklist@[b as int].state != CandidatePairState::Failed
                        &&& forall|k: int|
                            0 <= k < i && (#[trigger] self.checklist@[k]).state
                                != CandidatePairState::Failed ==> self.checklist@[k].priority_spec()
                                <= self.checklist@[b as int].priority_spec()
                        &&& forall|k: int|
                            0 <= k < b && (#[trigger] self.checklist@[k]).state
                                != CandidatePairState::Failed ==> self.checklist@[k].priority_spec()
                                < self.checklist@[b as int].priority_spec()
                    },
                    None => forall|k: int|
                        0 <= k < i ==> (#[trigger] self.checklist@[k]).state
                            == CandidatePairState::Failed,
                },
            decreases n - i,
        {
            let p = self.checklist[i];
            if !matches!(p.state, CandidatePairState::Failed) {
                match best {
                    Some(b) => {
                        let bp = self.checklist[b];
                        if bp.priority() < p.priority() {
                            best = Some(i);
                        }
                    },
                    None => {
                        best = Some(i);
                    },
                }
            }
            i = i + 1;
        }
        proof {
            if best is Some {
                assert(best_available_at(self.checklist@, best.unwrap() as int));
            }
        }
        best
    }

    /// The best available pair itself; see
    /// [`Self::get_best_available_candidate_pair_index`].  Never yields a
    /// pair in `Failed` state, and yields the eligible pair of maximal
    /// priority (the earliest such pair on a tie).
    pub fn get_best_available_candidate_pair(&self) -> (r: Option<CandidatePair>)
        ensures
            match r {
                Some(p) => exists|i: int|
                    #[trigger] best_available_at(self.checklist@, i) && p == self.checklist@[i],
                None => forall|k: int|
                    0 <= k < self.checklist@.len() ==> (#[trigger] self.checklist@[k]).state
                        == CandidatePairState::Failed,
            },
    {
        match self.get_best_available_candidate_pair_index() {
            Some(i) => {
                let p = self.checklist[i];
                proof {
                    assert(best_available_at(self.checklist@, i as int));
                    assert(p == self.checklist@[i as int]);
                }
                Some(p)
            },
            None => None,
        }
    }

    /// Linear lookup of the first remote candidate serving this network
    /// type at this address.
    pub fn find_remote_candidate(&self, network_type: NetworkType, addr: TransportAddr) -> (r:
        Option<usize>)
        ensures
            match r {
                Some(i) => find_remote_spec(self.remote_candidates@, network_type, addr) == Some(
                    i as int,
                ),
                None => find_remote_spec(self.remote_candidates@, network_type, addr) is None,
            },
    {
        proof {
            lemma_find_remote_spec(self.remote_candidates@, network_type, addr);
        }
        let mut i: usize = 0;
        let n = self.remote_candidates.len();
        while i < n
            invariant
                i <= n,
                n == self.remote_candidates@.len(),
                forall|k: int|
                    0 <= k < i ==> !candidate_matches_addr(
                        #[trigger] self.remote_candidates@[k],
                        network_type,
                        addr,
                    ),
            decreases n - i,
        {
            let c = self.remote_candidates[i];
            if c.network_type == network_type && c.addr.ip == addr.ip && c.addr.port == addr.port {
                proof {
                    lemma_find_remote_spec(self.remote_candidates@, network_type, addr);
                    assert(c.addr == addr);
                }
                return Some(i);
            }
            i = i + 1;
        }
        None
    }

    /// Admits a remote candidate: skipped entirely when an equal candidate
    /// is already known; otherwise appended, eagerly paired against every
    /// local candidate of the same network type.  Returns the index the
    /// candidate lives at either way.
    pub fn add_remote_candidate(&mut self, c: Candidate) -> (idx: usize)
        requires
            old(self).wf(),
        ensures
            final(self).wf(),
            idx as int == admit_remote_idx(*old(self), c),
            final(self).remote_candidates@ == admit_remote_remotes(*old(self), c),
            final(self).checklist@ == admit_remote_checklist(*old(self), c),
            final(self).local_candidates@ == old(self).local_candidates@,
            final(self).selected_pair == old(self).selected_pair,
            final(self).connection_state == old(self).connection_state,
            final(self).pending_binding_requests@ == old(self).pending_binding_requests@,
            old(self).same_config(*final(self)),
    {
        proof {
            lemma_find_equal_candidate(self.remote_candidates@, c);
        }
        let mut i: usize = 0;
        let n = self.remote_candidates.len();
        while i < n
            invariant
                i <= n,
                n == self.remote_candidates@.len(),
                *self == *old(self),
                old(self).wf(),
                forall|k: int|
                    0 <= k < i ==> !(#[trigger] self.remote_candidates@[k]).same_identity_spec(c),
            decreases n - i,
        {
            if self.remote_candidates[i].same_identity(&c) {
                proof {
                    lemma_find_equal_candidate(self.remote_candidates@, c);
                }
                return i;
            }
            i = i + 1;
        }
        proof {
            lemma_find_equal_candidate(self.remote_candidates@, c);
            assert(find_equal_candidate(self.remote_candidates@, c) is None);
        }
        let idx = self.remote_candidates.len();
        self.remote_candidates.push(c);
        let ghost pre = *old(self);
        let ghost nt = c.network_type;
        let mut j: usize = 0;
        let ln = self.local_candidates.len();
        while j < ln
            invariant
                j <= ln,
                ln == self.local_candidates@.len(),
                self.wf(),
                nt == c.network_type,
                idx < self.remote_candidates@.len(),
                self.local_candidates@ == pre.local_candidates@,
                self.remote_candidates@ == pre.remote_candidates@.push(c),
                idx as int == pre.remote_candidates@.len() as int,
                self.remote_candidates@[idx as int] == c,
                self.checklist@ == pre.checklist@ + pairs_for_remote(
                    pre.local_candidates@,
                    j as int,
                    nt,
                    idx,
                    c.priority,
                    pre.is_controlling,
                ),
                forall|k: int|
                    0 <= k < pre.checklist@.len() ==> (#[trigger] self.checklist@[k]).remote_idx
                        < idx,
                forall|k: int|
                    pre.checklist@.len() <= k < self.checklist@.len() ==> (
                    #[trigger] self.checklist@[k]).remote_idx == idx
                        && self.checklist@[k].local_idx < j,
                self.selected_pair == pre.selected_pair,
                self.connection_state == pre.connection_state,
                self.pending_binding_requests@ == pre.pending_binding_requests@,
                pre.same_config(*self),
                pre.is_controlling == self.is_controlling,
            decreases ln - j,
        {
            let lc = self.local_candidates[j];
            let ghost pp = pairs_for_remote(
                pre.local_candidates@,
                j as int,
                nt,
                idx,
                c.priority,
                pre.is_controlling,
            );
            let ghost pp1 = pairs_for_remote(
                pre.local_candidates@,
                j + 1,
                nt,
                idx,
                c.priority,
                pre.is_controlling,
            );
            let ghost cl0 = self.checklist@;
            if lc.network_type == c.network_type {
                self.add_pair(j, idx);
                proof {
                    let q = CandidatePair::new_spec(
                        j,
                        idx,
                        pre.local_candidates@[j as int].priority,
                        c.priority,
                        pre.is_controlling,
                    );
                    assert(lc == pre.local_candidates@[j as int]);
                    assert(self.checklist@ == cl0.push(q));
                    assert(pp1 == pp.push(q));
                    assert(cl0 == pre.checklist@ + pp);
                    assert(self.checklist@ =~= pre.checklist@ + pp1);
                }
            } else {
                proof {
                    assert(pp1 == pp);
                }
            }
            j = j + 1;
        }
        idx
    }

    /// Admits a local candidate, symmetric to
    /// [`Self::add_remote_candidate`]: deduplicated by identity, eagerly
    /// paired against every remote candidate of the same network type.
    pub fn add_local_candidate(&mut self, c: Candidate) -> (idx: usize)
        requires
            old(self).wf(),
        ensures
            final(self).wf(),
            idx as int == admit_local_idx(*old(self), c),
            final(self).local_candidates@ == admit_local_locals(*old(self), c),
            final(self).checklist@ == admit_local_checklist(*old(self), c),
            final(self).remote_candidates@ == old(self).remote_candidates@,
            final(self).selected_pair == old(self).selected_pair,
            final(self).connection_state == old(self).connection_state,
            final(self).pending_binding_requests@ == old(self).pending_binding_requests@,
            old(self).same_config(*final(self)),
    {
        proof {
            lemma_find_equal_candidate(self.local_candidates@, c);
        }
        let mut i: usize = 0;
        let n = self.local_candidates.len();
        while i < n
            invariant
                i <= n,
                n == self.local_candidates@.len(),
                *self == *old(self),
                old(self).wf(),
                forall|k: int|
                    0 <= k < i ==> !(#[trigger] self.local_candidates@[k]).same_identity_spec(c),
            decreases n - i,
        {
            if self.local_candidates[i].same_identity(&c) {
                proof {
                    lemma_find_equal_candidate(self.local_candidates@, c);
                }
                return i;
            }
            i = i + 1;
        }
        proof {
            lemma_find_equal_candidate(self.local_candidates@, c);
            assert(find_equal_candidate(self.local_candidates@, c) is None);
        }
        let idx = self.local_candidates.len();
        self.local_candidates.push(c);
        let ghost pre = *old(self);
        let ghost nt = c.network_type;
        let mut j: usize = 0;
        let rn = self.remote_candidates.len();
        while j < rn
            invariant
                j <= rn,
                rn == self.remote_candidates@.len(),
                self.wf(),
                nt == c.network_type,
                idx < self.local_candidates@.len(),
                self.remote_candidates@ == pre.remote_candidates@,
                self.local_candidates@ == pre.local_candidates@.push(c),
                idx as int == pre.local_candidates@.len() as int,
                self.local_candidates@[idx as int] == c,
                self.checklist@ == pre.checklist@ + pairs_for_local(
                    pre.remote_candidates@,
                    j as int,
                    nt,
                    idx,
                    c.priority,
                    pre.is_controlling,
                ),
                forall|k: int|
                    0 <= k < pre.checklist@.len() ==> (#[trigger] self.checklist@[k]).local_idx
                        < idx,
                forall|k: int|
                    pre.checklist@.len() <= k < self.checklist@.len() ==> (
                    #[trigger] self.checklist@[k]).local_idx == idx
                        && self.checklist@[k].remote_idx < j,
                self.selected_pair == pre.selected_pair,
                self.connection_state == pre.connection_state,
                self.pending_binding_requests@ == pre.pending_binding_requests@,
                pre.same_config(*self),
                pre.is_controlling == self.is_controlling,
            decreases rn - j,
        {
            let rc = self.remote_candidates[j];
            let ghost pp = pairs_for_local(
                pre.remote_candidates@,
                j as int,
                nt,
                idx,
                c.priority,
                pre.is_controlling,
            );
            let ghost pp1 = pairs_for_local(
                pre.remote_candidates@,
                j + 1,
                nt,
                idx,
                c.priority,
                pre.is_controlling,
            );
            let ghost cl0 = self.checklist@;
            if rc.network_type == c.network_type {
                self.add_pair(idx, j);
                proof {
                    let q = CandidatePair::new_spec(
                        idx,
                        j,
                        c.priority,
                        pre.remote_candidates@[j as int].priority,
                        pre.is_controlling,
                    );
                    assert(rc == pre.remote_candidates@[j as int]);
                    assert(self.checklist@ == cl0.push(q));
                    assert(pp1 == pp.push(q));
                    assert(cl0 == pre.checklist@ + pp);
                    assert(self.checklist@ =~= pre.checklist@ + pp1);
                }
            } else {
                proof {
                    assert(pp1 == pp);
                }
            }
            j = j + 1;
        }
        idx
    }
}

} // verus!
