//! A voting contract's state machine: yes/no tallies with a deadline, an
//! owner who may reset them, and numbered vote boxes created on demand.
pub mod schedule;
pub mod state;
pub mod contract;
pub mod laws;
