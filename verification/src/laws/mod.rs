//! What the operations of the library promise, for all inputs: how results relate to inputs, and
//! how the results of several calls relate.

pub mod apns;
pub mod double;
pub mod json;
pub mod lookup;
pub mod mempool;
pub mod notify;
pub mod poll;
pub mod position;
pub mod response;
pub mod sse;
pub mod text;
