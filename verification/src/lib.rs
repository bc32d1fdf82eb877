//! Cached state and fork configuration of a client that forks off a remote chain.

pub mod cache;
pub mod eth;
pub mod storage;
pub mod config;
pub mod fork;
