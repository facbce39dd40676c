//! Core logic of an Ethereum-style JSON-RPC client: topic and hex codecs,
//! log-filter construction, the budgeted event-wait state machines, the
//! block-range scanner, and the transaction pipeline. Remote transport and
//! scheduling live outside this crate; everything here is pure logic with
//! verified contracts.
pub mod abi;
pub mod client;
pub mod errors;
pub mod events;
pub mod filters;
pub mod hex;
pub mod transactions;
pub mod types;
