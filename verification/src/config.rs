//! How a fork over an IPC connection is configured, and how that
//! configuration changes.

use vstd::prelude::*;
use std::time::Duration;
use ethers::types::U256;
use crate::storage::HashBytes;

verus! {

/// Errors that a change of the fork's configuration can end in.
#[derive(Debug, Clone)]
pub enum BlockchainError {
    /// The given IPC path could not be connected to.
    InvalidUrl(String),
    /// The configuration lacks what the change needs.
    Internal(String),
}

/// The configuration of a fork. `P` is the provider through which the remote
/// chain is reached.
#[derive(Debug, Clone)]
pub struct ClientForkConfigMiddleware<P> {
    pub ipc_path: Option<String>,
    pub db_path: Option<String>,
    pub block_number: u64,
    pub block_hash: HashBytes,
    pub provider: P,
    pub chain_id: u64,
    pub override_chain_id: Option<u64>,
    /// The timestamp for the forked block
    pub timestamp: u64,
    /// The basefee of the forked block
    pub base_fee: Option<U256>,
    /// request timeout
    pub timeout: Option<Duration>,
    /// request retries for spurious networks
    pub retries: Option<u32>,
    /// request retries for spurious networks
    pub backoff: Option<Duration>,
    /// total difficulty of the chain until this block
    pub total_difficulty: U256,
}

/// The message of the error for a configuration without a database path.
pub open spec fn db_path_not_set_message() -> Seq<char> {
    "db_path not set"@
}

impl<P> ClientForkConfigMiddleware<P> {
    /// Moves the fork to another block: its number, hash, timestamp, base fee
    /// and total difficulty change; nothing else does.
    pub fn update_block(
        &mut self,
        block_number: u64,
        block_hash: HashBytes,
        timestamp: u64,
        base_fee: Option<U256>,
        total_difficulty: U256,
    )
        ensures
            *final(self) == (ClientForkConfigMiddleware {
                block_number,
                block_hash,
                timestamp,
                base_fee,
                total_difficulty,
                ..*old(self)
            }),
    {
        self.block_number = block_number;
        self.block_hash = block_hash;
        self.timestamp = timestamp;
        self.base_fee = base_fee;
        self.total_difficulty = total_difficulty;
    }

    /// The first part of switching the fork to another IPC path, once the
    /// connection to `url_or_path` has been tried: `connected` is its outcome.
    /// A failed connection is an `InvalidUrl` error naming the path; else a
    /// configuration without a database path is an `Internal` error; else the
    /// connection comes back with the database path that the new provider is
    /// to be built on.
    pub fn prepare_url_or_path_update<C, E>(
        &self,
        url_or_path: String,
        connected: Result<C, E>,
    ) -> (r: Result<(C, String), BlockchainError>)
        ensures
            match connected {
                Err(_) => r matches Err(BlockchainError::InvalidUrl(u)) && u@ == url_or_path@,
                Ok(c) => match self.db_path {
                    None => r matches Err(BlockchainError::Internal(m)) && m@
                        == db_path_not_set_message(),
                    Some(p) => r matches Ok((c2, p2)) && c2 == c && p2@ == p@,
                },
            },
    {
        let client = match connected {
            Ok(c) => c,
            Err(_) => {
                return Err(BlockchainError::InvalidUrl(url_or_path));
            },
        };
        match &self.db_path {
            Some(p) => Ok((client, p.clone())),
            None => Err(BlockchainError::Internal("db_path not set".to_owned())),
        }
    }

    /// The second part of switching the fork to another IPC path: the new
    /// provider replaces the old one; nothing else changes. In particular
    /// `ipc_path` keeps its value: recording the new path is left to the
    /// caller (a reset of the fork).
    pub fn set_provider(&mut self, provider: P)
        ensures
            *final(self) == (ClientForkConfigMiddleware { provider, ..*old(self) }),
    {
        self.provider = provider;
    }
}

} // verus!
