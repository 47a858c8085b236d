//! Payload building: the rules by which the builder picks transactions, counts
//! gas, size and revenue, and deals with transactions that cannot be included.
//!
//! Running the EVM, reading the transaction pool and the clock are the caller's
//! work. What it reads goes in as plain values, and what it has to do comes back
//! as plain values.
pub mod build_loop;
pub mod builder;
pub mod dump;
pub mod eviction;
pub mod gas;
pub mod outcome;
pub mod u256;
