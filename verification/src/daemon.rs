//! The process that keeps secrets in memory and answers clients.

pub mod cache;
pub mod server;
pub mod store;
