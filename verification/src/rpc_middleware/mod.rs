//! The node's JSON-RPC middleware: what happens to a request before, or in place
//! of, its handling by the node.
//!
//! A middleware decides and answers; calling the service behind it is the
//! caller's work. A decision comes back as a value, and the service's reply goes
//! in where the middleware has a use for it.
pub mod batch;
pub mod jsonrpc;
pub mod layer;
pub mod params;
pub mod pending;
pub mod relay;
pub mod replay;
