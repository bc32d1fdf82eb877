//! The decisions of a forked client when it serves block requests: a block
//! that the cache holds is served from it, any other is fetched from the
//! remote chain. The fetching itself is done by the caller.

use vstd::prelude::*;
use ethers::types::{Block, Transaction, H256};
use crate::eth::{block_with_tx_hashes, tx_hashes_block};
use crate::storage::{ForkedStorage, HashBytes};

verus! {

/// A block, identified by its hash or by its number.
#[derive(Debug, Clone, Copy)]
pub enum BlockId {
    Hash(HashBytes),
    Number(u64),
}

/// Where a requested block comes from.
#[derive(Debug)]
pub enum BlockSource<'a> {
    /// The cache holds it.
    Cached(&'a Block<H256>),
    /// It has to be fetched from the remote chain, by this identifier.
    Fetch(BlockId),
}

/// Where the block with hash `hash` comes from: the cache when it holds a
/// block under that hash, else a fetch by that hash.
pub fn block_by_hash_source<'a, R>(storage: &'a ForkedStorage<R>, hash: HashBytes) -> (r:
    BlockSource<'a>)
    ensures
        match storage.spec_block_by_hash(hash) {
            Some(b) => r matches BlockSource::Cached(c) && *c == b,
            None => r matches BlockSource::Fetch(BlockId::Hash(h)) && h == hash,
        },
{
    match storage.cached_block_by_hash(&hash) {
        Some(b) => BlockSource::Cached(b),
        None => BlockSource::Fetch(BlockId::Hash(hash)),
    }
}

/// Where the block with number `number` comes from: the cache when it holds a
/// hash for that number and a block for that hash, else a fetch by that
/// number.
pub fn block_by_number_source<'a, R>(storage: &'a ForkedStorage<R>, number: u64) -> (r:
    BlockSource<'a>)
    ensures
        match storage.spec_block_by_number(number) {
            Some(b) => r matches BlockSource::Cached(c) && *c == b,
            None => r matches BlockSource::Fetch(BlockId::Number(n)) && n == number,
        },
{
    match storage.cached_block_by_number(number) {
        Some(b) => BlockSource::Cached(b),
        None => BlockSource::Fetch(BlockId::Number(number)),
    }
}

/// The answer to a request for a block with transaction hashes, given the
/// outcome of fetching the full block: an error is passed on, a missing block
/// stays missing, a full block has its transactions replaced by their hashes.
pub fn hash_block_from_fetch<E>(fetched: Result<Option<Block<Transaction>>, E>) -> (r: Result<
    Option<Block<H256>>,
    E,
>)
    ensures
        match fetched {
            Err(e) => r == Err::<Option<Block<H256>>, E>(e),
            Ok(None) => r == Ok::<Option<Block<H256>>, E>(None),
            Ok(Some(f)) => r == Ok::<Option<Block<H256>>, E>(Some(tx_hashes_block(f))),
        },
{
    match fetched {
        Err(e) => Err(e),
        Ok(None) => Ok(None),
        Ok(Some(full)) => Ok(Some(block_with_tx_hashes(full))),
    }
}

/// What a request for the uncle at `index` of a block does once the block
/// itself has been looked up (`found`): an error is passed on; without the
/// block there is no uncle; with it, the uncle is asked for by that block and
/// that index.
pub fn uncle_request<E>(found: Result<Option<Block<H256>>, E>, index: usize) -> (r: Result<
    Option<(Block<H256>, usize)>,
    E,
>)
    ensures
        match found {
            Err(e) => r == Err::<Option<(Block<H256>, usize)>, E>(e),
            Ok(None) => r == Ok::<Option<(Block<H256>, usize)>, E>(None),
            Ok(Some(b)) => r == Ok::<Option<(Block<H256>, usize)>, E>(Some((b, index))),
        },
{
    match found {
        Err(e) => Err(e),
        Ok(None) => Ok(None),
        Ok(Some(b)) => Ok(Some((b, index))),
    }
}

} // verus!
