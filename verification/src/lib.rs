//! Per-connection protocol engine for a request/response exchange layer.
//!
//! The library models the connection handler of a peer-to-peer
//! request/response protocol as a verified state machine: queues of pending
//! and in-flight outbound messages, a pool of worker exchanges, a keep-alive
//! policy and a globally unique inbound request-id counter. The hosting
//! driver performs the actual substream negotiation and codec I/O and feeds
//! their outcomes back into the state machine.

pub mod counter;
pub mod events;
pub mod handler;
pub mod laws;
pub mod worker;
