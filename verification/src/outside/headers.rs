//! Block headers, as the crate `ethereum` completes and hashes them.
use crate::genesis;
use ethereum::{Block, Header, PartialHeader, TransactionV2};
use ethereum_types::{Bloom, H160, H256, H64, U256};
use vstd::prelude::*;

verus! {

/// The hash of the ommers and the root of the transactions of a block with this
/// header and with neither ommers nor transactions.
pub uninterp spec fn empty_block_roots(header: genesis::PartialFields) -> ([u8; 32], [u8; 32]);

/// The hash of a header.
pub uninterp spec fn header_hash(header: genesis::HeaderFields) -> [u8; 32];

/// Calls `ethereum::Block::new` without transactions and without ommers, for the
/// two fields that it adds to the header. [`empty_block_roots`] names them. The
/// fields that are handed in come out of that function unchanged.
#[verifier::external_body]
pub(crate) fn new_block(p: &genesis::PartialHeader) -> (r: ([u8; 32], [u8; 32]))
    ensures
        r == empty_block_roots(p@),
{
    let header = Block::<TransactionV2>::new(PartialHeader {
        parent_hash: H256(p.parent_hash.0), beneficiary: H160(p.beneficiary.0),
        state_root: H256(p.state_root.0), receipts_root: H256(p.receipts_root.0),
        logs_bloom: Bloom(p.logs_bloom.0), difficulty: U256(p.difficulty.0),
        number: U256(p.number.0), gas_limit: U256(p.gas_limit.0),
        gas_used: U256(p.gas_used.0), timestamp: p.timestamp,
        extra_data: p.extra_data.clone(), mix_hash: H256(p.mix_hash.0), nonce: H64(p.nonce.0),
    }, Vec::new(), Vec::new()).header;
    (header.ommers_hash.0, header.transactions_root.0)
}

/// Calls `ethereum::Header::hash`, whose result [`header_hash`] names.
#[verifier::external_body]
pub(crate) fn hash(h: &genesis::Header) -> (r: [u8; 32])
    ensures
        r == header_hash(h@),
{
    let p = &h.partial;
    Header {
        parent_hash: H256(p.parent_hash.0), ommers_hash: H256(h.ommers_hash.0),
        beneficiary: H160(p.beneficiary.0), state_root: H256(p.state_root.0),
        transactions_root: H256(h.transactions_root.0), receipts_root: H256(p.receipts_root.0),
        logs_bloom: Bloom(p.logs_bloom.0), difficulty: U256(p.difficulty.0),
        number: U256(p.number.0), gas_limit: U256(p.gas_limit.0),
        gas_used: U256(p.gas_used.0), timestamp: p.timestamp,
        extra_data: p.extra_data.clone(), mix_hash: H256(p.mix_hash.0), nonce: H64(p.nonce.0),
    }.hash().0
}

} // verus!
