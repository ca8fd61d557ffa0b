//! Watches a local collaboration client's "in meeting" feed and relays state
//! transitions and heartbeats to a remote endpoint.
//!
//! The modules hold the decision logic of the monitor: the edge-triggered
//! coordinator state machine, the feed reader's per-event transitions, the
//! heartbeat task's stop condition, and the notification payload encoding.
//! I/O (the WebSocket itself, the HTTP client, the log sinks) lives outside
//! the library and only acts on the directives these functions return.

pub mod config;
pub mod coordinator;
pub mod feed;
pub mod heartbeat;
pub mod notify;
