use ice_core::agent::AgentInternal;
use ice_core::pair::CandidatePair;
use ice_core::types::{Candidate, CandidatePairState, NetworkType, TransportAddr};

fn cand(nt: NetworkType, ip: u128, port: u16, priority: u32) -> Candidate {
    Candidate {
        network_type: nt,
        addr: TransportAddr { ip, port },
        component: 1,
        priority,
        last_sent: 0,
        last_received: 0,
    }
}

fn agent_controlling() -> AgentInternal {
    AgentInternal::new(true, false, 7, 5000, 10000, 2000)
}

#[test]
fn pair_priority_formula() {
    let local = cand(NetworkType::Udp4, 1, 1000, 126);
    let remote = cand(NetworkType::Udp4, 2, 2000, 110);
    // Controlling agent: g = 126, d = 110.
    let p = CandidatePair::new(0, 0, &local, &remote, true);
    assert_eq!(p.priority(), (1u128 << 32) * 110 + 2 * 126 + 1);
    assert_eq!(p.priority(), 472446402813u128);
    // Controlled agent: g = 110, d = 126; no tie-break bonus.
    let q = CandidatePair::new(0, 0, &local, &remote, false);
    assert_eq!(q.priority(), (1u128 << 32) * 110 + 2 * 126);
}

#[test]
fn pair_priority_tie_break_favors_controlling() {
    let local = cand(NetworkType::Udp4, 1, 1000, 100);
    let remote = cand(NetworkType::Udp4, 2, 2000, 100);
    let p = CandidatePair::new(0, 0, &local, &remote, true);
    // g == d: no bonus either way.
    assert_eq!(p.priority(), (1u128 << 32) * 100 + 2 * 100);
}

#[test]
fn pair_priority_extreme_values_do_not_overflow() {
    // The formula's value passes 64 bits when both priorities are extreme.
    let local = cand(NetworkType::Udp4, 1, 1, u32::MAX);
    let remote = cand(NetworkType::Udp4, 2, 2, u32::MAX);
    let p = CandidatePair::new(0, 0, &local, &remote, true);
    assert_eq!(p.priority(), (1u128 << 32) * (u32::MAX as u128) + 2 * (u32::MAX as u128));
}

#[test]
fn best_pair_picks_greatest_priority() {
    let mut a = agent_controlling();
    a.add_local_candidate(cand(NetworkType::Udp4, 1, 1000, 50));
    a.add_remote_candidate(cand(NetworkType::Udp4, 9, 9000, 10));
    a.add_remote_candidate(cand(NetworkType::Udp4, 9, 9001, 200));
    a.add_remote_candidate(cand(NetworkType::Udp4, 9, 9002, 40));
    let best = a.get_best_available_candidate_pair_index();
    assert_eq!(best, Some(1));
    let bp = a.get_best_available_candidate_pair().unwrap();
    assert_eq!(bp.remote_idx, 1);
    assert_eq!(bp.remote_priority, 200);
}

#[test]
fn best_pair_skips_failed() {
    let mut a = agent_controlling();
    a.add_local_candidate(cand(NetworkType::Udp4, 1, 1000, 50));
    a.add_remote_candidate(cand(NetworkType::Udp4, 9, 9000, 10));
    a.add_remote_candidate(cand(NetworkType::Udp4, 9, 9001, 200));
    a.checklist[1].state = CandidatePairState::Failed;
    let best = a.get_best_available_candidate_pair_index();
    assert_eq!(best, Some(0));
    let bp = a.get_best_available_candidate_pair().unwrap();
    assert!(!matches!(bp.state, CandidatePairState::Failed));
}

#[test]
fn best_pair_tie_first_seen_wins() {
    let mut a = agent_controlling();
    a.add_local_candidate(cand(NetworkType::Udp4, 1, 1000, 50));
    a.add_remote_candidate(cand(NetworkType::Udp4, 9, 9000, 77));
    a.add_remote_candidate(cand(NetworkType::Udp4, 9, 9001, 77));
    assert_eq!(a.get_best_available_candidate_pair_index(), Some(0));
}

#[test]
fn best_pair_none_when_empty_or_all_failed() {
    let mut a = agent_controlling();
    assert_eq!(a.get_best_available_candidate_pair_index(), None);
    assert!(a.get_best_available_candidate_pair().is_none());
    a.add_local_candidate(cand(NetworkType::Udp4, 1, 1000, 50));
    a.add_remote_candidate(cand(NetworkType::Udp4, 9, 9000, 10));
    a.checklist[0].state = CandidatePairState::Failed;
    assert_eq!(a.get_best_available_candidate_pair_index(), None);
}

#[test]
fn add_remote_candidate_pairs_same_network_type_only() {
    let mut a = agent_controlling();
    a.add_local_candidate(cand(NetworkType::Udp4, 1, 1000, 50));
    a.add_local_candidate(cand(NetworkType::Udp6, 2, 1001, 60));
    a.add_local_candidate(cand(NetworkType::Udp4, 3, 1002, 70));
    let idx = a.add_remote_candidate(cand(NetworkType::Udp4, 9, 9000, 10));
    assert_eq!(idx, 0);
    assert_eq!(a.remote_candidates.len(), 1);
    // One pair per Udp4 local candidate, in list order.
    assert_eq!(a.checklist.len(), 2);
    assert_eq!(a.checklist[0].local_idx, 0);
    assert_eq!(a.checklist[1].local_idx, 2);
    assert!(a.checklist.iter().all(|p| p.remote_idx == 0));
    assert!(a.checklist.iter().all(|p| matches!(p.state, CandidatePairState::Waiting)));
    assert!(a.checklist.iter().all(|p| p.binding_request_count == 0));
}

#[test]
fn add_remote_candidate_deduplicates() {
    let mut a = agent_controlling();
    a.add_local_candidate(cand(NetworkType::Udp4, 1, 1000, 50));
    let first = a.add_remote_candidate(cand(NetworkType::Udp4, 9, 9000, 10));
    let again = a.add_remote_candidate(cand(NetworkType::Udp4, 9, 9000, 10));
    assert_eq!(first, 0);
    assert_eq!(again, 0);
    assert_eq!(a.remote_candidates.len(), 1);
    assert_eq!(a.checklist.len(), 1);
}

#[test]
fn add_local_candidate_pairs_against_remotes() {
    let mut a = agent_controlling();
    a.add_remote_candidate(cand(NetworkType::Udp4, 9, 9000, 10));
    a.add_remote_candidate(cand(NetworkType::Udp6, 8, 9001, 20));
    let idx = a.add_local_candidate(cand(NetworkType::Udp4, 1, 1000, 50));
    assert_eq!(idx, 0);
    assert_eq!(a.checklist.len(), 1);
    assert_eq!(a.checklist[0].local_idx, 0);
    assert_eq!(a.checklist[0].remote_idx, 0);
}

#[test]
fn find_pair_by_combination() {
    let mut a = agent_controlling();
    a.add_local_candidate(cand(NetworkType::Udp4, 1, 1000, 50));
    a.add_remote_candidate(cand(NetworkType::Udp4, 9, 9000, 10));
    a.add_remote_candidate(cand(NetworkType::Udp4, 9, 9001, 20));
    assert_eq!(a.find_pair(0, 1), Some(1));
    assert_eq!(a.find_pair(0, 0), Some(0));
    assert_eq!(a.find_pair(1, 0), None);
}

#[test]
fn find_remote_candidate_by_type_and_address() {
    let mut a = agent_controlling();
    a.add_remote_candidate(cand(NetworkType::Udp4, 9, 9000, 10));
    a.add_remote_candidate(cand(NetworkType::Udp6, 9, 9000, 10));
    assert_eq!(
        a.find_remote_candidate(NetworkType::Udp6, TransportAddr { ip: 9, port: 9000 }),
        Some(1)
    );
    assert_eq!(
        a.find_remote_candidate(NetworkType::Udp4, TransportAddr { ip: 9, port: 9001 }),
        None
    );
}
