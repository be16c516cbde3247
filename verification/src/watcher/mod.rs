//! Watching a transaction: looking it up, registering it, and polling until it is confirmed.

pub mod lookup;
pub mod notify;
pub mod poll;
pub mod position;
pub mod reply;
pub mod request;
pub mod response;
pub mod txid;

pub use lookup::get_tx;
pub use position::{compute_block_position, resolve_block_position};
pub use request::{watch_tx, WatchRequest};
pub use response::WatchResponse;
