//! A connector that keeps a subscription to a streaming JSON-RPC feed
//! alive over a WebSocket transport: it builds the subscribe handshake,
//! classifies inbound frames, and bounds reconnection by a retry budget.
//!
//! The transport itself (sockets, async I/O) is an external collaborator;
//! this crate holds the verified decision logic the I/O loop drives.

pub mod classify;
pub mod controller;
pub mod subscribe;
