//! Protocol core of an MQTT 3.1.1 / 5.0 runtime.
//!
//! The crate holds the parts of a connection that decide: the in-flight
//! bookkeeping behind the outbound sink, the routing of inbound PUBLISH
//! packets and the reaction to control messages. Encoding, transport and
//! timers belong to the driver that owns the connection; it feeds events in
//! and carries out what the core answers.
pub mod channel;
pub mod error;
pub mod topic;
pub mod types;
pub mod v3;
pub mod v5;
