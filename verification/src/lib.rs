//! Per-process shared proxy state for handshake throttling and middle-relay
//! deduplication, built fresh for each proxy instance.

pub mod foreign;
pub mod proxy;
