//! The inbound dispatcher: classifies received protocol messages, filters
//! role conflicts, credits liveness, discovers peer-reflexive candidates,
//! and hands authenticated traffic off to the caller with everything it
//! needs to respond.

use vstd::prelude::*;
use crate::types::{
    Candidate, InboundMessage, MessageClass, MessageMethod, NetworkType, TransportAddr,
};
use crate::agent::AgentInternal;
use crate::checklist::{
    admit_remote_checklist, admit_remote_idx, admit_remote_remotes, find_remote_spec,
};

verus! {

/// The message is a connectivity-check (binding) message of a class the
/// dispatcher handles.
pub open spec fn recognized_type(m: InboundMessage) -> bool {
    &&& m.method == MessageMethod::Binding
    &&& (m.class == MessageClass::SuccessResponse || m.class == MessageClass::Request || m.class
        == MessageClass::Indication)
}

/// The message loses the role-conflict filter: a controlling agent discards
/// inbound traffic that itself claims the controlling role or demands
/// immediate nomination (only the controlling side may nominate); a
/// controlled agent discards traffic claiming the controlled role.
pub open spec fn role_conflict(is_controlling: bool, m: InboundMessage) -> bool {
    if is_controlling {
        m.has_ice_controlling || m.has_use_candidate
    } else {
        m.has_ice_controlled
    }
}

/// Priority of a synthesized peer-reflexive candidate: the standard
/// candidate formula with the peer-reflexive type preference (110) and the
/// default local preference (65535).  A component id beyond the formula's
/// 1..=256 range contributes zero.
pub open spec fn prflx_priority_spec(component: u16) -> u32 {
    (110 * 0x1000000 + 0xffff * 0x100 + (if component <= 256 {
        256 - component
    } else {
        0int
    })) as u32
}

/// Executable form of [`prflx_priority_spec`].
pub fn prflx_priority(component: u16) -> (r: u32)
    ensures
        r == prflx_priority_spec(component),
{
    let rem: u32 = if component <= 256 {
        256 - component as u32
    } else {
        0
    };
    110 * 0x1000000 + 0xffff * 0x100 + rem
}

/// The peer-reflexive candidate synthesized for a request from an unknown
/// source: the observed address, the component of the local candidate the
/// request arrived on, and no liveness recorded yet.
pub open spec fn prflx_candidate(addr: TransportAddr, component: u16) -> Candidate {
    Candidate {
        network_type: NetworkType::Udp4,
        addr,
        component,
        priority: prflx_priority_spec(component),
        last_sent: 0,
        last_received: 0,
    }
}

/// `post` is `pre` with remote candidate `idx` credited as heard from at
/// `now`, and nothing else changed.
pub open spec fn seen_applied(pre: AgentInternal, post: AgentInternal, idx: int, now: u64) -> bool {
    &&& post.remote_candidates@ == pre.remote_candidates@.update(
        idx,
        (Candidate { last_received: now, ..pre.remote_candidates@[idx] }),
    )
    &&& post.local_candidates@ == pre.local_candidates@
    &&& post.checklist@ == pre.checklist@
    &&& post.selected_pair == pre.selected_pair
    &&& post.connection_state == pre.connection_state
    &&& post.pending_binding_requests@ == pre.pending_binding_requests@
    &&& pre.same_config(post)
}

/// What to put in the success response to an authenticated request: echo
/// the transaction id, map the observed source address, send it back there.
/// The caller's codec adds the integrity (keyed by this agent's password)
/// and fingerprint attributes.
#[derive(Clone, Copy, PartialEq, Eq, Structural, Debug)]
pub struct BindingSuccessPlan {
    pub transaction_id: u128,
    pub dest: TransportAddr,
    pub mapped: TransportAddr,
}

/// How the dispatcher disposed of an inbound message.
#[derive(Clone, Copy, PartialEq, Eq, Structural, Debug)]
pub enum InboundOutcome {
    /// Not a binding message, or an unhandled class: ignored.
    UnhandledType,
    /// Discarded by the role-conflict filter.
    RoleConflict,
    /// A success response whose integrity check failed: discarded.
    BadResponseIntegrity,
    /// A success response from an address with no known remote candidate:
    /// discarded (expected for stale responses after pruning or restart).
    UnknownResponseSource,
    /// An authenticated success response, to be resolved against the
    /// pending transactions; the sender is remote candidate `remote_idx`.
    SuccessResponse { remote_idx: usize },
    /// A request whose username did not match the session's: discarded.
    BadRequestUsername,
    /// A request whose integrity check failed: discarded.
    BadRequestIntegrity,
    /// An authenticated request from remote candidate `remote_idx`
    /// (`discovered` when the source was admitted just now as a
    /// peer-reflexive candidate); the caller responds per `respond`.
    Request { remote_idx: usize, discovered: bool, respond: BindingSuccessPlan },
    /// An indication; liveness was credited if the sender is known.
    Indication { sender_idx: Option<usize> },
}

impl AgentInternal {
    /// Credits remote candidate `idx` as heard from at `now`.
    fn mark_remote_seen(&mut self, idx: usize, now: u64)
        requires
            old(self).wf(),
            idx < old(self).remote_candidates@.len(),
        ensures
            final(self).wf(),
            seen_applied(*old(self), *final(self), idx as int, now),
    {
        let mut c = self.remote_candidates[idx];
        c.last_received = now;
        self.remote_candidates.set(idx, c);
    }

    /// The success response owed to an authenticated request: echoes its
    /// transaction id and maps the observed source address.  Building the
    /// wire message and sending it is the caller's.
    pub fn send_binding_success(&self, transaction_id: u128, remote: TransportAddr) -> (plan:
        BindingSuccessPlan)
        ensures
            plan == (BindingSuccessPlan { transaction_id, dest: remote, mapped: remote }),
    {
        BindingSuccessPlan { transaction_id, dest: remote, mapped: remote }
    }

    /// Dispatches one received protocol message.
    ///
    /// `m` arrives parsed and with its authentication outcomes precomputed;
    /// `local_idx` is the local candidate the message arrived on and
    /// `remote` its observed source address.  In order: anything but a
    /// recognized binding message is ignored; role conflicts are discarded;
    /// a success response must pass the remote-keyed integrity check and
    /// come from a known remote candidate to be handed off; a request must
    /// pass the username and the local-keyed integrity check, and a request
    /// from an unknown source first admits that source as a peer-reflexive
    /// remote candidate (deduplicated, eagerly paired against the local
    /// candidates of its network type).  Any message resolved to a remote
    /// candidate credits it as heard from at `now`.
    pub fn handle_inbound(
        &mut self,
        m: &InboundMessage,
        local_idx: usize,
        remote: TransportAddr,
        now: u64,
    ) -> (out: InboundOutcome)
        requires
            old(self).wf(),
            local_idx < old(self).local_candidates@.len(),
        ensures
            final(self).wf(),
            ({
                let pre = *old(self);
                let nt = pre.local_candidates@[local_idx as int].network_type;
                let found = find_remote_spec(pre.remote_candidates@, nt, remote);
                &&& (!recognized_type(*m) ==> out == InboundOutcome::UnhandledType && *final(self)
                    == pre)
                &&& (recognized_type(*m) && role_conflict(pre.is_controlling, *m) ==> out
                    == InboundOutcome::RoleConflict && *final(self) == pre)
                &&& (recognized_type(*m) && !role_conflict(pre.is_controlling, *m) ==> {
                    &&& (m.class == MessageClass::SuccessResponse ==> {
                        &&& (!m.integrity_ok_remote ==> out == InboundOutcome::BadResponseIntegrity
                            && *final(self) == pre)
                        &&& (m.integrity_ok_remote ==> match found {
                            Some(ri) => out == (InboundOutcome::SuccessResponse {
                                remote_idx: ri as usize,
                            }) && seen_applied(pre, *final(self), ri, now),
                            None => out == InboundOutcome::UnknownResponseSource && *final(self)
                                == pre,
                        })
                    })
                    &&& (m.class == MessageClass::Request ==> {
                        &&& (!m.username_ok ==> out == InboundOutcome::BadRequestUsername
                            && *final(self) == pre)
                        &&& (m.username_ok && !m.integrity_ok_local ==> out
                            == InboundOutcome::BadRequestIntegrity && *final(self) == pre)
                        &&& (m.username_ok && m.integrity_ok_local ==> match found {
                            Some(ri) => out == (InboundOutcome::Request {
                                remote_idx: ri as usize,
                                discovered: false,
                                respond: BindingSuccessPlan {
                                    transaction_id: m.transaction_id,
                                    dest: remote,
                                    mapped: remote,
                                },
                            }) && seen_applied(pre, *final(self), ri, now),
                            None => ({
                                let c = prflx_candidate(
                                    remote,
                                    pre.local_candidates@[local_idx as int].component,
                                );
                                let ri = admit_remote_idx(pre, c);
                                let admitted = admit_remote_remotes(pre, c);
                                &&& out == (InboundOutcome::Request {
                                    remote_idx: ri as usize,
                                    discovered: true,
                                    respond: BindingSuccessPlan {
                                        transaction_id: m.transaction_id,
                                        dest: remote,
                                        mapped: remote,
                                    },
                                })
                                &&& final(self).remote_candidates@ == admitted.update(
                                    ri,
                                    (Candidate { last_received: now, ..admitted[ri] }),
                                )
                                &&& final(self).checklist@ == admit_remote_checklist(pre, c)
                                &&& final(self).local_candidates@ == pre.local_candidates@
                                &&& final(self).selected_pair == pre.selected_pair
                                &&& final(self).connection_state == pre.connection_state
                                &&& final(self).pending_binding_requests@
                                    == pre.pending_binding_requests@
                                &&& pre.same_config(*final(self))
                            }),
                        })
                    })
                    &&& (m.class == MessageClass::Indication ==> match found {
                        Some(ri) => out == (InboundOutcome::Indication {
                            sender_idx: Some(ri as usize),
                        }) && seen_applied(pre, *final(self), ri, now),
                        None => out == (InboundOutcome::Indication { sender_idx: None })
                            && *final(self) == pre,
                    })
                })
            }),
    {
        if !(matches!(m.method, MessageMethod::Binding) && (matches!(
            m.class,
            MessageClass::SuccessResponse,
        ) || matches!(m.class, MessageClass::Request) || matches!(
            m.class,
            MessageClass::Indication,
        ))) {
            return InboundOutcome::UnhandledType;
        }
        if self.is_controlling {
            if m.has_ice_controlling {
                return InboundOutcome::RoleConflict;
            }
            if m.has_use_candidate {
                return InboundOutcome::RoleConflict;
            }
        } else {
            if m.has_ice_controlled {
                return InboundOutcome::RoleConflict;
            }
        }
        let nt = self.local_candidates[local_idx].network_type;
        let found = self.find_remote_candidate(nt, remote);
        proof {
            crate::checklist::lemma_find_remote_spec(self.remote_candidates@, nt, remote);
        }
        if matches!(m.class, MessageClass::SuccessResponse) {
            if !m.integrity_ok_remote {
                return InboundOutcome::BadResponseIntegrity;
            }
            match found {
                Some(ri) => {
                    self.mark_remote_seen(ri, now);
                    InboundOutcome::SuccessResponse { remote_idx: ri }
                },
                None => InboundOutcome::UnknownResponseSource,
            }
        } else if matches!(m.class, MessageClass::Request) {
            if !m.username_ok {
                return InboundOutcome::BadRequestUsername;
            }
            if !m.integrity_ok_local {
                return InboundOutcome::BadRequestIntegrity;
            }
            let respond = self.send_binding_success(m.transaction_id, remote);
            match found {
                Some(ri) => {
                    self.mark_remote_seen(ri, now);
                    InboundOutcome::Request { remote_idx: ri, discovered: false, respond }
                },
                None => {
                    let component = self.local_candidates[local_idx].component;
                    let c = Candidate {
                        network_type: NetworkType::Udp4,
                        addr: remote,
                        component,
                        priority: prflx_priority(component),
                        last_sent: 0,
                        last_received: 0,
                    };
                    proof {
                        crate::checklist::lemma_find_equal_candidate(self.remote_candidates@, c);
                    }
                    let ri = self.add_remote_candidate(c);
                    self.mark_remote_seen(ri, now);
                    InboundOutcome::Request { remote_idx: ri, discovered: true, respond }
                },
            }
        } else {
            match found {
                Some(ri) => {
                    self.mark_remote_seen(ri, now);
                    InboundOutcome::Indication { sender_idx: Some(ri) }
                },
                None => InboundOutcome::Indication { sender_idx: None },
            }
        }
    }
}

} // verus!
