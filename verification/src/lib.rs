//! A small synchronization-and-query bridge between a node process and a
//! remote blockchain client: wait until the local node has finished catching
//! up with the chain's head, and fetch and decode a contract's current
//! on-chain protocol state at the latest final block.
//!
//! Both operations are stateless apart from their input handle. The handles
//! are opaque request/response channels into a broader messaging system; they
//! are modeled as traits with exactly one request method each, so a scripted
//! stand-in can drive the logic without any real networking.

pub mod query;
pub mod state;
pub mod sync;
