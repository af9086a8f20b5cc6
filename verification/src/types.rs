//! Plain-value models of the data the agent core works on: candidates,
//! transport addresses, session states, inbound protocol messages, and the
//! notifications a mutation asks the caller to emit.

use vstd::prelude::*;

verus! {

/// Network protocol over which a candidate's address is reachable.
#[derive(Clone, Copy, PartialEq, Eq, Structural, Debug)]
pub enum NetworkType {
    Udp4,
    Udp6,
    Tcp4,
    Tcp6,
}

/// Overall session connection state.  `Failed` and `Closed` are terminal;
/// `Connected` and `Disconnected` may oscillate with liveness loss/recovery.
#[derive(Clone, Copy, PartialEq, Eq, Structural, Debug)]
pub enum ConnectionState {
    New,
    Checking,
    Connected,
    Disconnected,
    Failed,
    Closed,
}

/// Per-pair connectivity-check progress.  A pair never leaves `Failed`.
#[derive(Clone, Copy, PartialEq, Eq, Structural, Debug)]
pub enum CandidatePairState {
    Waiting,
    InProgress,
    Succeeded,
    Failed,
}

/// A transport address: the IP (v4 or v6, as one integer) and the port.
#[derive(Clone, Copy, PartialEq, Eq, Structural, Debug)]
pub struct TransportAddr {
    pub ip: u128,
    pub port: u16,
}

/// A local or remote ICE candidate, reduced to what the core reads of it:
/// immutable identity (network type, address, component, priority) and the
/// mutable liveness timestamps, in milliseconds of some monotonic clock.
#[derive(Clone, Copy, PartialEq, Eq, Structural, Debug)]
pub struct Candidate {
    pub network_type: NetworkType,
    pub addr: TransportAddr,
    pub component: u16,
    pub priority: u32,
    /// Last time a packet was sent from this candidate, in ms.
    pub last_sent: u64,
    /// Last time a packet was received on this candidate, in ms.
    pub last_received: u64,
}

impl Candidate {
    /// Candidate identity: everything but the liveness timestamps.
    pub open spec fn same_identity_spec(self, other: Candidate) -> bool {
        &&& self.network_type == other.network_type
        &&& self.addr == other.addr
        &&& self.component == other.component
        &&& self.priority == other.priority
    }

    /// Identity equality; the mutable timestamps do not participate.
    pub fn same_identity(&self, other: &Candidate) -> (r: bool)
        ensures
            r == self.same_identity_spec(*other),
    {
        self.network_type == other.network_type && self.addr.ip == other.addr.ip
            && self.addr.port == other.addr.port && self.component == other.component
            && self.priority == other.priority
    }
}

/// Method of an inbound protocol message, as classified by the codec.
#[derive(Clone, Copy, PartialEq, Eq, Structural, Debug)]
pub enum MessageMethod {
    Binding,
    Other,
}

/// Class of an inbound protocol message.
#[derive(Clone, Copy, PartialEq, Eq, Structural, Debug)]
pub enum MessageClass {
    Request,
    SuccessResponse,
    Indication,
    Other,
}

/// An inbound protocol message, already parsed by the (external) codec.
///
/// The wire encoding and the credential-keyed integrity primitive are
/// collaborators outside this crate, so the message arrives with the
/// attribute-presence queries and both possible authentication outcomes
/// precomputed: `integrity_ok_local` is the integrity check keyed by this
/// agent's own password (consulted for requests), `integrity_ok_remote` the
/// one keyed by the remote side's password (consulted for success
/// responses), and `username_ok` whether the username attribute equals
/// `local_fragment:remote_fragment`.
#[derive(Clone, Copy, PartialEq, Eq, Structural, Debug)]
pub struct InboundMessage {
    pub method: MessageMethod,
    pub class: MessageClass,
    pub transaction_id: u128,
    pub has_ice_controlling: bool,
    pub has_ice_controlled: bool,
    pub has_use_candidate: bool,
    pub integrity_ok_local: bool,
    pub integrity_ok_remote: bool,
    pub username_ok: bool,
}

/// Lifecycle errors surfaced synchronously to the caller.
#[derive(Clone, Copy, PartialEq, Eq, Structural, Debug)]
pub enum IceError {
    /// The agent was already closed.
    Closed,
}

impl IceError {
    /// A short description, for callers that want to print the error.
    pub fn message(&self) -> &'static str {
        match self {
            IceError::Closed => "the agent is closed",
        }
    }
}

/// Milliseconds elapsed from `then` to `now`; a timestamp that lies in the
/// future counts as zero elapsed time.
pub open spec fn elapsed(now: u64, then: u64) -> int {
    if now >= then {
        now - then
    } else {
        0
    }
}

/// Executable form of [`elapsed`].
pub fn elapsed_ms(now: u64, then: u64) -> (r: u64)
    ensures
        r as int == elapsed(now, then),
{
    if now >= then {
        now - then
    } else {
        0
    }
}

/// What a mutation asks the caller to emit on its notification channels.
#[derive(Clone, Copy, PartialEq, Eq, Structural, Debug)]
pub struct Notifications {
    /// A state change to publish on the state channel, if any.
    pub state: Option<ConnectionState>,
    /// Whether to signal on the selected-pair-change channel.
    pub pair_changed: bool,
    /// Whether to complete the one-shot "first connected" signal.
    pub signal_connected: bool,
}

} // verus!
