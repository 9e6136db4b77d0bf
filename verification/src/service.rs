//! The core service.
use vstd::prelude::*;

verus! {

/// The core of an EVM node: the rules by which it answers questions on accounts,
/// makes calls, checks raw transactions and fills the transaction queues.
///
/// The service reads no storage itself. An operation that needs to is a value
/// that says what it waits for; its `step` takes the answer and gives the next
/// such value. Whoever runs the service performs what is asked for with the
/// three parts that the service keeps: the queues, the state trie and the block
/// storage.
#[derive(Debug, PartialEq, Eq)]
pub struct EVMCoreService<Q, T, S> {
    pub tx_queues: Q,
    pub trie_store: T,
    pub storage: S,
}

} // verus!
