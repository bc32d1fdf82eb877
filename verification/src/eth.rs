//! The chain data types that the cache stores, taken from `ethers` as they are.
//! Their contents are not read by the logic of this crate: values of these
//! types are stored, handed back and converted only.

use vstd::prelude::*;
use ethers::types::{Block, Filter, Transaction, H256, U256};

verus! {

#[verifier::external_type_specification]
#[verifier::external_body]
#[verifier::reject_recursive_types(TX)]
pub struct ExEthBlock<TX>(ethers::types::Block<TX>);

#[verifier::external_type_specification]
#[verifier::external_body]
pub struct ExEthTransaction(ethers::types::Transaction);

#[verifier::external_type_specification]
#[verifier::external_body]
pub struct ExEthTransactionReceipt(ethers::types::TransactionReceipt);

#[verifier::external_type_specification]
#[verifier::external_body]
pub struct ExEthTrace(ethers::types::Trace);

#[verifier::external_type_specification]
#[verifier::external_body]
pub struct ExEthGethTrace(ethers::types::GethTrace);

#[verifier::external_type_specification]
#[verifier::external_body]
pub struct ExEthLog(ethers::types::Log);

#[verifier::external_type_specification]
#[verifier::external_body]
pub struct ExEthFilter(ethers::types::Filter);

#[verifier::external_type_specification]
#[verifier::external_body]
pub struct ExEthH256(ethers::types::H256);

#[verifier::external_type_specification]
#[verifier::external_body]
pub struct ExEthU256(ethers::types::U256);

#[verifier::external_type_specification]
#[verifier::external_body]
pub struct ExEthBytes(ethers::types::Bytes);

/// The block that `ethers`' conversion `From<Block<Transaction>> for
/// Block<TxHash>` makes of a full block: the same block with each full
/// transaction replaced by its hash. It depends on the full block alone.
pub uninterp spec fn tx_hashes_block(full: Block<Transaction>) -> Block<H256>;

/// Calls `ethers`' conversion `From<Block<Transaction>> for Block<TxHash>`;
/// the contract claims that its result is `tx_hashes_block` of the argument.
#[verifier::external_body]
pub(crate) fn block_with_tx_hashes(full: Block<Transaction>) -> (r: Block<H256>)
    ensures
        r == tx_hashes_block(full),
{
    full.into()
}

/// `ethers`' derived `PartialEq` for `Filter`: the derived comparison of all
/// fields, none of which is a float, so it holds exactly when the two filters
/// are the same value.
#[verifier::external_body]
pub(crate) fn filters_equal(a: &Filter, b: &Filter) -> (r: bool)
    ensures
        r == (*a == *b),
{
    a == b
}

/// The derived `Clone` of `U256` (a `Copy` type, from `uint`'s
/// `construct_uint!`): the clone is the same value.
pub assume_specification[ <ethers::types::U256 as Clone>::clone ](a: &U256) -> (r: U256)
    ensures
        r == *a,
;

/// `ethers`' derived `Clone` for `Filter`: a field-by-field copy, so the
/// copy is the same value.
#[verifier::external_body]
pub(crate) fn filter_clone(a: &Filter) -> (r: Filter)
    ensures
        r == *a,
{
    a.clone()
}

} // verus!
