//! Client-side tracking of transaction finality on a block-producing chain,
//! spoken over JSON-RPC.
//!
//! The crate builds typed RPC requests, interprets the plain values decoded
//! from their responses, and drives two small decision cores: a
//! confirmation-wait state machine that decides when a submitted transaction
//! is buried under enough blocks, and a bounded retry policy for establishing
//! a streaming connection. All transport, timing and JSON work is left to the
//! caller, which feeds observations back into the machines as events.

pub mod confirm;
pub mod connection;
pub mod contract;
pub mod error;
pub mod filter;
pub mod hmy;
pub mod namespace;
pub mod quantity;
pub mod rpc;
pub mod types;
pub mod vault;
