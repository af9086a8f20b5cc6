//! Core connectivity-establishment engine of an ICE agent.
//!
//! The crate owns the candidate-pair checklist, the outstanding-transaction
//! tracker, the connectivity-check scheduler, the inbound message dispatcher
//! and the session state machine.  Everything here works on plain values:
//! addresses are integers, instants are milliseconds, and a received protocol
//! message arrives already parsed and authenticated (the wire codec and the
//! integrity primitive are collaborators outside this crate).  The caller
//! performs the network sends and channel notifications that the methods
//! here decide on and return.

pub mod types;
pub mod pair;
pub mod agent;
pub mod tracker;
pub mod checklist;
pub mod sched;
pub mod dispatch;
pub mod laws;
