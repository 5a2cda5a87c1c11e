//! Session orchestration core for a two-party, turn-based protocol in which
//! each move is an authorized call into an off-chain execution backend.
//!
//! The library holds the verified logic: pairing connections into sessions,
//! a strict turn-protocol state machine that gates which party may submit
//! which action when, and the model of the rate-limited pipeline that turns
//! accepted move batches into provable transactions. Transport, the proving
//! backend and all I/O live outside the library and talk to it through plain
//! values.

pub mod identity;
pub mod requests;
pub mod table;
pub mod response;
pub mod player;
pub mod generator;
pub mod session;
pub mod matchmaker;
