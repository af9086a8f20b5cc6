use ice_core::agent::AgentInternal;
use ice_core::sched::CheckTarget;
use ice_core::types::{Candidate, CandidatePairState, NetworkType, TransportAddr};

fn cand(nt: NetworkType, ip: u128, port: u16, priority: u32) -> Candidate {
    Candidate {
        network_type: nt,
        addr: TransportAddr { ip, port },
        component: 1,
        priority,
        last_sent: 0,
        last_received: 0,
    }
}

fn agent_with_one_pair(max_binding_requests: u16, keepalive_interval: u64) -> AgentInternal {
    let mut a = AgentInternal::new(true, false, max_binding_requests, 5000, 10000,
        keepalive_interval);
    a.add_local_candidate(cand(NetworkType::Udp4, 1, 1000, 50));
    a.add_remote_candidate(cand(NetworkType::Udp4, 9, 9000, 10));
    a
}

#[test]
fn first_cycle_promotes_waiting_and_schedules_a_check() {
    let mut a = agent_with_one_pair(2, 0);
    let targets = a.ping_all_candidates();
    assert_eq!(targets, vec![CheckTarget { local_idx: 0, remote_idx: 0 }]);
    assert!(matches!(a.checklist[0].state, CandidatePairState::InProgress));
    assert_eq!(a.checklist[0].binding_request_count, 1);
}

#[test]
fn unanswered_pair_fails_after_exactly_max_checks() {
    // Budget of 2 checks: cycles 1 and 2 each issue one request, cycle 3
    // marks the pair Failed without a request, later cycles do nothing.
    let mut a = agent_with_one_pair(2, 0);
    assert_eq!(a.ping_all_candidates().len(), 1);
    assert_eq!(a.ping_all_candidates().len(), 1);
    assert!(matches!(a.checklist[0].state, CandidatePairState::InProgress));
    assert_eq!(a.checklist[0].binding_request_count, 2);
    assert_eq!(a.ping_all_candidates().len(), 0);
    assert!(matches!(a.checklist[0].state, CandidatePairState::Failed));
    assert_eq!(a.checklist[0].binding_request_count, 2);
    assert_eq!(a.ping_all_candidates().len(), 0);
    assert_eq!(a.checklist[0].binding_request_count, 2);
}

#[test]
fn zero_budget_fails_without_any_request() {
    let mut a = agent_with_one_pair(0, 0);
    let targets = a.ping_all_candidates();
    assert!(targets.is_empty());
    assert!(matches!(a.checklist[0].state, CandidatePairState::Failed));
    assert_eq!(a.checklist[0].binding_request_count, 0);
}

#[test]
fn succeeded_pairs_are_not_rechecked() {
    let mut a = agent_with_one_pair(2, 0);
    a.checklist[0].state = CandidatePairState::Succeeded;
    let targets = a.ping_all_candidates();
    assert!(targets.is_empty());
    assert!(matches!(a.checklist[0].state, CandidatePairState::Succeeded));
    assert_eq!(a.checklist[0].binding_request_count, 0);
}

#[test]
fn scan_covers_every_pair_in_order() {
    let mut a = AgentInternal::new(true, false, 3, 5000, 10000, 0);
    a.add_local_candidate(cand(NetworkType::Udp4, 1, 1000, 50));
    a.add_remote_candidate(cand(NetworkType::Udp4, 9, 9000, 10));
    a.add_remote_candidate(cand(NetworkType::Udp4, 9, 9001, 20));
    let targets = a.ping_all_candidates();
    assert_eq!(
        targets,
        vec![
            CheckTarget { local_idx: 0, remote_idx: 0 },
            CheckTarget { local_idx: 0, remote_idx: 1 },
        ]
    );
}

#[test]
fn keepalive_without_selection_is_none() {
    let a = agent_with_one_pair(2, 2000);
    assert_eq!(a.check_keepalive(1_000_000), None);
}

#[test]
fn keepalive_zero_interval_is_disabled() {
    let mut a = agent_with_one_pair(2, 0);
    a.set_selected_pair(Some(0));
    assert_eq!(a.check_keepalive(1_000_000), None);
}

#[test]
fn keepalive_fires_when_idle_past_interval() {
    let mut a = agent_with_one_pair(2, 2000);
    a.set_selected_pair(Some(0));
    a.local_candidates[0].last_sent = 10_000;
    a.remote_candidates[0].last_received = 10_000;
    assert_eq!(a.check_keepalive(11_000), None);
    assert_eq!(
        a.check_keepalive(12_500),
        Some(CheckTarget { local_idx: 0, remote_idx: 0 })
    );
}

#[test]
fn keepalive_fires_on_either_idle_direction() {
    let mut a = agent_with_one_pair(2, 2000);
    a.set_selected_pair(Some(0));
    a.local_candidates[0].last_sent = 12_000;
    a.remote_candidates[0].last_received = 10_000;
    // Sent recently, but nothing received for 2.5 s.
    assert_eq!(
        a.check_keepalive(12_500),
        Some(CheckTarget { local_idx: 0, remote_idx: 0 })
    );
}
