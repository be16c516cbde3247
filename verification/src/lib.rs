//! Monitor of Bitcoin transactions in the mempool.
//!
//! The library decides what to ask the mempool API and the push service, and what the answers
//! mean; it does no I/O itself. Whoever uses it performs the actions and hands back the replies.

pub mod apns;
pub mod double;
pub mod json;
pub mod laws;
pub mod mempool;
pub mod push;
pub mod server;
pub mod sse;
pub mod text;
pub mod watcher;
