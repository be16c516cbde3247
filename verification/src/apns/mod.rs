//! Push notifications through the Apple Push Notification service.

pub mod builder;
pub mod client;
pub mod error;
pub mod jwt;
pub mod types;
