//! What the library takes from the bitcoin crate: full blocks and transactions,
//! and their consensus encoding.

use vstd::prelude::*;

use crate::hash::{BlockHash, Txid};

verus! {

/// The bitcoin crate's decoding error, carried as it is.
#[verifier::external_type_specification]
#[verifier::external_body]
pub struct ExEncodeError(bitcoin::consensus::encode::Error);

/// The bitcoin crate's block, carried as it is: the library never looks inside.
#[verifier::external_type_specification]
#[verifier::external_body]
pub struct ExBlock(bitcoin::Block);

/// The bitcoin crate's transaction, carried as it is: the library never looks
/// inside.
#[verifier::external_type_specification]
#[verifier::external_body]
pub struct ExTransaction(bitcoin::Transaction);

/// Relies on the bitcoin crate's `Clone` for blocks, which messages derive
/// `Clone` through; nothing is assumed of the copy.
pub assume_specification[ <bitcoin::Block as core::clone::Clone>::clone ](b: &bitcoin::Block) -> bitcoin::Block;

/// Relies on the bitcoin crate's `Clone` for transactions, which messages derive
/// `Clone` through; nothing is assumed of the copy.
pub assume_specification[ <bitcoin::Transaction as core::clone::Clone>::clone ](t: &bitcoin::Transaction) -> bitcoin::Transaction;

/// Whether `data` is exactly one block in consensus encoding, as the bitcoin
/// crate's decoder judges it.
pub uninterp spec fn decodes_as_block(data: Seq<u8>) -> bool;

/// Whether `data` is exactly one transaction in consensus encoding, as the bitcoin
/// crate's decoder judges it.
pub uninterp spec fn decodes_as_transaction(data: Seq<u8>) -> bool;

/// Relies on `bitcoin::consensus::deserialize::<Block>`: whether it decodes a
/// block depends on the bytes alone.
#[verifier::external_body]
pub(crate) fn deserialize_block(data: &[u8]) -> (r: Result<
    bitcoin::Block,
    bitcoin::consensus::encode::Error,
>)
    ensures
        r is Ok <==> decodes_as_block(data@),
{
    bitcoin::consensus::deserialize(data)
}

/// Relies on `bitcoin::consensus::deserialize::<Transaction>`: whether it decodes
/// a transaction depends on the bytes alone.
#[verifier::external_body]
pub(crate) fn deserialize_transaction(data: &[u8]) -> (r: Result<
    bitcoin::Transaction,
    bitcoin::consensus::encode::Error,
>)
    ensures
        r is Ok <==> decodes_as_transaction(data@),
{
    bitcoin::consensus::deserialize(data)
}

/// Relies on `bitcoin::consensus::serialize` for a block: its consensus encoding.
#[verifier::external_body]
pub(crate) fn serialize_block(block: &bitcoin::Block) -> Vec<u8> {
    bitcoin::consensus::serialize(block)
}

/// Relies on `bitcoin::consensus::serialize` for a transaction: its consensus
/// encoding.
#[verifier::external_body]
pub(crate) fn serialize_transaction(tx: &bitcoin::Transaction) -> Vec<u8> {
    bitcoin::consensus::serialize(tx)
}

/// Relies on `bitcoin::Block::block_hash`: the hash of the block's header, held
/// as its bytes.
#[verifier::external_body]
pub(crate) fn block_hash_of(block: &bitcoin::Block) -> BlockHash {
    BlockHash(bitcoin::hashes::Hash::to_byte_array(block.block_hash()))
}

/// Relies on `bitcoin::Transaction::compute_txid`: the transaction's id, held as
/// its bytes.
#[verifier::external_body]
pub(crate) fn txid_of(tx: &bitcoin::Transaction) -> Txid {
    Txid(bitcoin::hashes::Hash::to_byte_array(tx.compute_txid()))
}

} // verus!
