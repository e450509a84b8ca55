//! Core logic of a sonar sweep system: an operator console drives an embedded
//! sensor node over a TCP command link, and the node sweeps a servo-mounted
//! sensor across a field of view while streaming angle telemetry back over UDP.
//!
//! This crate holds the verified core: the wire protocol, the sweep
//! controller, the command ingestion decisions, and the operator-side
//! connection state machine. All I/O (sockets, servo hardware, the console)
//! lives outside, in thin shells that call into these functions.

pub mod ingest;
pub mod protocol;
pub mod state_machine;
pub mod sweep;
