use ice_core::agent::AgentInternal;
use ice_core::types::{Candidate, CandidatePairState, ConnectionState, IceError, NetworkType,
    TransportAddr};

fn cand(nt: NetworkType, ip: u128, port: u16, priority: u32) -> Candidate {
    Candidate {
        network_type: nt,
        addr: TransportAddr { ip, port },
        component: 1,
        priority,
        last_sent: 0,
        last_received: 0,
    }
}

fn connected_agent(disconnected_timeout: u64, failed_timeout: u64) -> AgentInternal {
    let mut a = AgentInternal::new(true, false, 7, disconnected_timeout, failed_timeout, 2000);
    a.add_local_candidate(cand(NetworkType::Udp4, 1, 1000, 50));
    a.add_remote_candidate(cand(NetworkType::Udp4, 9, 9000, 10));
    a.set_selected_pair(Some(0));
    a
}

#[test]
fn set_selected_pair_nominates_and_connects() {
    let mut a = AgentInternal::new(true, false, 7, 5000, 10000, 2000);
    a.add_local_candidate(cand(NetworkType::Udp4, 1, 1000, 50));
    a.add_remote_candidate(cand(NetworkType::Udp4, 9, 9000, 10));
    assert!(!a.checklist[0].nominated);
    let n = a.set_selected_pair(Some(0));
    assert!(a.checklist[0].nominated);
    assert_eq!(a.get_selected_pair(), Some(0));
    assert!(matches!(a.connection_state, ConnectionState::Connected));
    assert!(n.pair_changed);
    assert!(n.signal_connected);
    assert_eq!(n.state, Some(ConnectionState::Connected));
}

#[test]
fn set_selected_pair_none_clears_without_notification() {
    let mut a = connected_agent(5000, 10000);
    let n = a.set_selected_pair(None);
    assert_eq!(a.get_selected_pair(), None);
    assert!(matches!(a.connection_state, ConnectionState::Connected));
    assert!(!n.pair_changed);
    assert!(!n.signal_connected);
    assert_eq!(n.state, None);
}

#[test]
fn reselecting_signals_pair_change_but_no_state_change() {
    let mut a = connected_agent(5000, 10000);
    let n = a.set_selected_pair(Some(0));
    assert!(n.pair_changed);
    // Already Connected: the state notification is deduplicated.
    assert_eq!(n.state, None);
}

#[test]
fn update_connection_state_is_idempotent() {
    let mut a = AgentInternal::new(true, false, 7, 5000, 10000, 2000);
    assert_eq!(a.update_connection_state(ConnectionState::Checking), Some(ConnectionState::Checking));
    assert_eq!(a.update_connection_state(ConnectionState::Checking), None);
    assert!(matches!(a.connection_state, ConnectionState::Checking));
}

#[test]
fn entering_failed_tears_everything_down() {
    let mut a = connected_agent(5000, 10000);
    assert!(!a.local_candidates.is_empty());
    let emitted = a.update_connection_state(ConnectionState::Failed);
    assert_eq!(emitted, Some(ConnectionState::Failed));
    assert!(a.local_candidates.is_empty());
    assert!(a.remote_candidates.is_empty());
    assert!(a.checklist.is_empty());
    assert_eq!(a.get_selected_pair(), None);
}

#[test]
fn validate_without_selection_does_nothing() {
    let mut a = AgentInternal::new(true, false, 7, 5000, 10000, 2000);
    let (had, emitted) = a.validate_selected_pair(12_000);
    assert!(!had);
    assert_eq!(emitted, None);
    assert!(matches!(a.connection_state, ConnectionState::New));
}

#[test]
fn validate_fresh_pair_stays_connected() {
    let mut a = connected_agent(5000, 10000);
    a.remote_candidates[0].last_received = 10_000;
    let (had, emitted) = a.validate_selected_pair(12_000);
    assert!(had);
    assert_eq!(emitted, None);
    assert!(matches!(a.connection_state, ConnectionState::Connected));
}

#[test]
fn validate_six_seconds_silent_disconnects() {
    // disconnected_timeout 5 s, failed_timeout 10 s, silent for 6 s.
    let mut a = connected_agent(5000, 10000);
    a.remote_candidates[0].last_received = 10_000;
    let (had, emitted) = a.validate_selected_pair(16_000);
    assert!(had);
    assert_eq!(emitted, Some(ConnectionState::Disconnected));
    assert!(matches!(a.connection_state, ConnectionState::Disconnected));
}

#[test]
fn validate_twelve_seconds_silent_is_still_disconnected() {
    // The combined budget is 15 s, so 12 s of silence is not yet failure.
    let mut a = connected_agent(5000, 10000);
    a.remote_candidates[0].last_received = 10_000;
    let (_, emitted) = a.validate_selected_pair(22_000);
    assert_eq!(emitted, Some(ConnectionState::Disconnected));
    assert!(matches!(a.connection_state, ConnectionState::Disconnected));
}

#[test]
fn validate_sixteen_seconds_silent_fails_and_tears_down() {
    let mut a = connected_agent(5000, 10000);
    a.remote_candidates[0].last_received = 10_000;
    let (had, emitted) = a.validate_selected_pair(26_000);
    assert!(had);
    assert_eq!(emitted, Some(ConnectionState::Failed));
    assert!(matches!(a.connection_state, ConnectionState::Failed));
    assert!(a.local_candidates.is_empty());
    assert!(a.remote_candidates.is_empty());
    assert!(a.checklist.is_empty());
    assert_eq!(a.get_selected_pair(), None);
}

#[test]
fn validate_zero_failed_timeout_never_fails() {
    let mut a = connected_agent(5000, 0);
    a.remote_candidates[0].last_received = 0;
    let (_, emitted) = a.validate_selected_pair(1_000_000);
    assert_eq!(emitted, Some(ConnectionState::Disconnected));
    assert!(matches!(a.connection_state, ConnectionState::Disconnected));
}

#[test]
fn validate_zero_disconnect_timeout_disables_that_tier() {
    let mut a = connected_agent(0, 10000);
    a.remote_candidates[0].last_received = 0;
    // Budget is failed_timeout alone (10 s); 9 s of silence stays Connected.
    let (_, emitted) = a.validate_selected_pair(9_000);
    assert_eq!(emitted, None);
    assert!(matches!(a.connection_state, ConnectionState::Connected));
    let (_, emitted2) = a.validate_selected_pair(11_000);
    assert_eq!(emitted2, Some(ConnectionState::Failed));
}

#[test]
fn close_twice_reports_closed_error() {
    let mut a = connected_agent(5000, 10000);
    assert_eq!(a.close(), Ok(()));
    let before_candidates = a.local_candidates.len();
    let before_state = a.connection_state;
    assert_eq!(a.close(), Err(IceError::Closed));
    // The second close performed no side effects.
    assert_eq!(a.local_candidates.len(), before_candidates);
    assert!(a.connection_state == before_state);
    assert_eq!(IceError::Closed.message(), "the agent is closed");
}

#[test]
fn pair_never_leaves_failed() {
    let mut a = connected_agent(5000, 10000);
    a.checklist[0].state = CandidatePairState::Failed;
    a.ping_all_candidates();
    assert!(matches!(a.checklist[0].state, CandidatePairState::Failed));
}
