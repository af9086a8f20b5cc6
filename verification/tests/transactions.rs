use ice_core::agent::AgentInternal;
use ice_core::types::TransportAddr;

fn agent() -> AgentInternal {
    AgentInternal::new(true, false, 7, 5000, 10000, 2000)
}

const DEST: TransportAddr = TransportAddr { ip: 42, port: 3478 };

#[test]
fn resolve_within_window() {
    let mut a = agent();
    a.record_binding_request(1000, 111, DEST, false);
    let r = a.handle_inbound_binding_success(111, 1499).unwrap();
    assert_eq!(r.transaction_id, 111);
    assert_eq!(r.timestamp, 1000);
    assert_eq!(r.destination, DEST);
    assert!(!r.is_use_candidate);
}

#[test]
fn resolve_at_window_edge_fails() {
    // The window is 500 ms: a record aged exactly 500 ms is expired.
    let mut a = agent();
    a.record_binding_request(1000, 111, DEST, true);
    assert!(a.handle_inbound_binding_success(111, 1500).is_none());
    assert!(a.pending_binding_requests.is_empty());
}

#[test]
fn resolve_consumes_the_record() {
    let mut a = agent();
    a.record_binding_request(1000, 111, DEST, false);
    assert!(a.handle_inbound_binding_success(111, 1100).is_some());
    assert!(a.handle_inbound_binding_success(111, 1101).is_none());
}

#[test]
fn resolve_unknown_id_fails() {
    let mut a = agent();
    a.record_binding_request(1000, 111, DEST, false);
    assert!(a.handle_inbound_binding_success(222, 1100).is_none());
    // The miss does not consume the pending record.
    assert_eq!(a.pending_binding_requests.len(), 1);
}

#[test]
fn record_purges_expired_entries() {
    let mut a = agent();
    a.record_binding_request(1000, 111, DEST, false);
    a.record_binding_request(1200, 222, DEST, false);
    // At 1600 the first record (age 600) is beyond the 500 ms window.
    a.record_binding_request(1600, 333, DEST, false);
    let ids: Vec<u128> = a.pending_binding_requests.iter().map(|r| r.transaction_id).collect();
    assert_eq!(ids, vec![222, 333]);
}

#[test]
fn invalidate_keeps_fresh_entries_in_order() {
    let mut a = agent();
    a.record_binding_request(1000, 111, DEST, false);
    a.record_binding_request(1100, 222, DEST, false);
    a.record_binding_request(1200, 333, DEST, false);
    a.invalidate_pending_binding_requests(1550);
    let ids: Vec<u128> = a.pending_binding_requests.iter().map(|r| r.transaction_id).collect();
    assert_eq!(ids, vec![222, 333]);
}

#[test]
fn future_timestamps_count_as_age_zero() {
    let mut a = agent();
    a.record_binding_request(2000, 111, DEST, false);
    // Lookup clock behind the record's timestamp: the record is not expired.
    assert!(a.handle_inbound_binding_success(111, 1000).is_some());
}
