//! Session and stream lifecycle of a bridge that relays each bidirectional
//! stream of a multiplexed transport session to its own plain byte-stream
//! connection to a fixed backend.
//!
//! The library holds the decisions: which endpoint to dial and for how long,
//! what to do with each dial outcome, how each copy direction moves bytes and
//! half-closes, how a forwarding unit concludes, and when accept loops stop.
//! The caller performs the I/O those decisions ask for and reports back.
pub mod accept;
pub mod config;
pub mod error;
pub mod relay;
pub mod unit;
