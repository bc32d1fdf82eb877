//! The state fetched from the remote chain and kept to serve later requests.

use vstd::prelude::*;
use std::collections::HashMap;
use std::sync::Arc;
use ethers::types::{
    Block, Bytes, Filter, GethTrace, Log, Trace, Transaction, TransactionReceipt, H256, U256,
};
use crate::cache::KeyedCache;

verus! {

broadcast use vstd::std_specs::hash::group_hash_axioms;

/// A 32-byte hash (of a block or of a transaction), as its bytes.
pub type HashBytes = [u8; 32];

/// A 20-byte account address, as its bytes.
pub type AddressBytes = [u8; 20];

/// Contains cached state fetched to serve requests. `R` is the type of the
/// transaction requests whose gas estimations and call results are kept.
#[derive(Debug, Clone)]
pub struct ForkedStorage<R> {
    pub uncles: KeyedCache<HashBytes, Vec<Block<H256>>>,
    pub blocks: KeyedCache<HashBytes, Block<H256>>,
    pub hashes: HashMap<u64, HashBytes>,
    pub transactions: KeyedCache<HashBytes, Transaction>,
    pub transaction_receipts: KeyedCache<HashBytes, TransactionReceipt>,
    pub transaction_traces: KeyedCache<HashBytes, Vec<Trace>>,
    pub logs: KeyedCache<Filter, Vec<Log>>,
    pub geth_transaction_traces: KeyedCache<HashBytes, GethTrace>,
    pub block_traces: HashMap<u64, Vec<Trace>>,
    pub eth_gas_estimations: KeyedCache<(Arc<R>, u64), U256>,
    pub eth_call: KeyedCache<(Arc<R>, u64), Bytes>,
    pub code_at: KeyedCache<(AddressBytes, u64), Bytes>,
}

impl<R> ForkedStorage<R> {
    /// Nothing is cached.
    pub open spec fn is_empty(&self) -> bool {
        &&& self.uncles@ == Map::<HashBytes, Vec<Block<H256>>>::empty()
        &&& self.blocks@ == Map::<HashBytes, Block<H256>>::empty()
        &&& self.hashes@ == Map::<u64, HashBytes>::empty()
        &&& self.transactions@ == Map::<HashBytes, Transaction>::empty()
        &&& self.transaction_receipts@ == Map::<HashBytes, TransactionReceipt>::empty()
        &&& self.transaction_traces@ == Map::<HashBytes, Vec<Trace>>::empty()
        &&& self.logs@ == Map::<Filter, Vec<Log>>::empty()
        &&& self.geth_transaction_traces@ == Map::<HashBytes, GethTrace>::empty()
        &&& self.block_traces@ == Map::<u64, Vec<Trace>>::empty()
        &&& self.eth_gas_estimations@ == Map::<(Arc<R>, u64), U256>::empty()
        &&& self.eth_call@ == Map::<(Arc<R>, u64), Bytes>::empty()
        &&& self.code_at@ == Map::<(AddressBytes, u64), Bytes>::empty()
    }

    /// The block cached under the number `number`: the number must map to a
    /// hash and that hash to a block.
    pub open spec fn spec_block_by_number(&self, number: u64) -> Option<Block<H256>> {
        if self.hashes@.contains_key(number) && self.blocks@.contains_key(self.hashes@[number]) {
            Some(self.blocks@[self.hashes@[number]])
        } else {
            None
        }
    }

    /// The block cached under the hash `hash`.
    pub open spec fn spec_block_by_hash(&self, hash: HashBytes) -> Option<Block<H256>> {
        if self.blocks@.contains_key(hash) {
            Some(self.blocks@[hash])
        } else {
            None
        }
    }

    /// Clears all data.
    pub fn clear(&mut self)
        ensures
            final(self).is_empty(),
    {
        // simply replace with a completely new, empty instance
        *self = Self::default();
    }

    /// The cached block with hash `hash`, if any.
    pub fn cached_block_by_hash(&self, hash: &HashBytes) -> (r: Option<&Block<H256>>)
        ensures
            match r {
                Some(b) => self.spec_block_by_hash(*hash) == Some(*b),
                None => self.spec_block_by_hash(*hash) is None,
            },
    {
        self.blocks.get(hash)
    }

    /// The cached block with number `number`, if any: found through the
    /// cached hash of that number.
    pub fn cached_block_by_number(&self, number: u64) -> (r: Option<&Block<H256>>)
        ensures
            match r {
                Some(b) => self.spec_block_by_number(number) == Some(*b),
                None => self.spec_block_by_number(number) is None,
            },
    {
        match self.hashes.get(&number) {
            Some(hash) => self.blocks.get(hash),
            None => None,
        }
    }
}

/// A storage with nothing cached serves no block, by hash or by number.
pub proof fn law_empty_storage_serves_no_block<R>(
    storage: ForkedStorage<R>,
    hash: HashBytes,
    number: u64,
)
    requires
        storage.is_empty(),
    ensures
        storage.spec_block_by_hash(hash) is None,
        storage.spec_block_by_number(number) is None,
{
}

/// A block served by number is the block served by the hash that the number
/// is cached under.
pub proof fn law_block_by_number_is_block_by_hash<R>(storage: ForkedStorage<R>, number: u64)
    requires
        storage.spec_block_by_number(number) is Some,
    ensures
        storage.hashes@.contains_key(number),
        storage.spec_block_by_hash(storage.hashes@[number]) == storage.spec_block_by_number(
            number,
        ),
{
}

/// Once a block is cached under its hash, and its number under that hash,
/// the block is served both by hash and by number.
pub proof fn law_cached_block_is_served<R>(
    before: ForkedStorage<R>,
    after: ForkedStorage<R>,
    number: u64,
    hash: HashBytes,
    block: Block<H256>,
)
    requires
        after.blocks@ == before.blocks@.insert(hash, block),
        after.hashes@ == before.hashes@.insert(number, hash),
    ensures
        after.spec_block_by_hash(hash) == Some(block),
        after.spec_block_by_number(number) == Some(block),
{
}

impl<R> Default for ForkedStorage<R> {
    fn default() -> (s: Self)
        ensures
            s.is_empty(),
    {
        ForkedStorage {
            uncles: KeyedCache::new(),
            blocks: KeyedCache::new(),
            hashes: HashMap::new(),
            transactions: KeyedCache::new(),
            transaction_receipts: KeyedCache::new(),
            transaction_traces: KeyedCache::new(),
            logs: KeyedCache::new(),
            geth_transaction_traces: KeyedCache::new(),
            block_traces: HashMap::new(),
            eth_gas_estimations: KeyedCache::new(),
            eth_call: KeyedCache::new(),
            code_at: KeyedCache::new(),
        }
    }
}

} // verus!
