//! Rules of an Arc node, with proofs of what they do.
pub mod cli_version;
pub mod payload;
pub mod rpc_middleware;
pub mod text;
