//! Core of a stop-event tracker: a fixed-capacity history of timestamped
//! events with strictly ordered identifiers, an exclusive-access wrapper for
//! the single shared history, a multi-subscriber broadcast relay with
//! explicit loss signaling, and the per-observer streaming state machine
//! that feeds events to a connected client.

pub mod bus;
pub mod guard;
pub mod models;
pub mod session;
