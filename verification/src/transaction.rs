//! Transactions as the core reads them, and the transactions that it queues.
use crate::primitives::{H160, H256, U256};
use vstd::prelude::*;

verus! {

/// An account that a transaction announces to touch, with its storage slots.
#[derive(Debug, PartialEq, Eq)]
pub struct AccessListItem {
    pub address: H160,
    pub storage_keys: Vec<H256>,
}

/// The accounts that a transaction announces to touch.
pub type AccessList = Vec<AccessListItem>;

/// What an [`AccessListItem`] holds.
#[verifier::ext_equal]
pub struct AccessEntry {
    pub address: H160,
    pub storage_keys: Seq<H256>,
}

impl View for AccessListItem {
    type V = AccessEntry;

    open spec fn view(&self) -> AccessEntry {
        AccessEntry { address: self.address, storage_keys: self.storage_keys@ }
    }
}

/// What the items of an access list hold, in their order.
pub open spec fn access_entries(items: Seq<AccessListItem>) -> Seq<AccessEntry> {
    items.map_values(|item: AccessListItem| item@)
}

/// A transaction as it was encoded, and what the core reads of it. The signature
/// and the fees are in the encoding alone.
#[derive(Debug, PartialEq, Eq)]
pub struct Transaction {
    pub encoded: Vec<u8>,
    pub nonce: U256,
    pub gas_limit: U256,
    /// The account that is called, or nothing where a contract is created.
    pub to: Option<H160>,
    pub value: U256,
    pub data: Vec<u8>,
    pub access_list: AccessList,
}

/// What the core reads of a [`Transaction`].
#[verifier::ext_equal]
pub struct TransactionFields {
    pub nonce: U256,
    pub gas_limit: U256,
    pub to: Option<H160>,
    pub value: U256,
    pub data: Seq<u8>,
    pub access_list: Seq<AccessEntry>,
}

impl View for Transaction {
    type V = TransactionFields;

    open spec fn view(&self) -> TransactionFields {
        TransactionFields {
            nonce: self.nonce,
            gas_limit: self.gas_limit,
            to: self.to,
            value: self.value,
            data: self.data@,
            access_list: access_entries(self.access_list@),
        }
    }
}

/// A transaction and the account that signed it.
#[derive(Debug, PartialEq, Eq)]
pub struct SignedTx {
    pub transaction: Transaction,
    pub sender: H160,
}

impl SignedTx {
    pub fn nonce(&self) -> (r: U256)
        ensures
            r == self.transaction.nonce,
    {
        self.transaction.nonce
    }

    pub fn gas_limit(&self) -> (r: U256)
        ensures
            r == self.transaction.gas_limit,
    {
        self.transaction.gas_limit
    }

    pub fn to(&self) -> (r: Option<H160>)
        ensures
            r == self.transaction.to,
    {
        self.transaction.to
    }

    pub fn value(&self) -> (r: U256)
        ensures
            r == self.transaction.value,
    {
        self.transaction.value
    }

    pub fn data(&self) -> (r: &[u8])
        ensures
            r@ == self.transaction.data@,
    {
        self.transaction.data.as_slice()
    }

    /// A copy of the access list.
    pub fn access_list(&self) -> (r: AccessList)
        ensures
            access_entries(r@) == access_entries(self.transaction.access_list@),
    {
        let items = &self.transaction.access_list;
        let mut copy: AccessList = Vec::new();
        let mut i: usize = 0;
        while i < items.len()
            invariant
                i <= items.len(),
                copy.len() == i,
                forall|j: int| 0 <= j < i ==> (#[trigger] copy@[j])@ == items@[j]@,
            decreases items.len() - i,
        {
            let storage_keys = items[i].storage_keys.clone();
            assert(storage_keys@ =~= items@[i as int].storage_keys@);
            copy.push(AccessListItem { address: items[i].address, storage_keys });
            i += 1;
        }
        assert(access_entries(copy@) =~= access_entries(items@));
        copy
    }
}

/// An amount that moves into or out of an account.
#[derive(Clone, Copy, Debug, PartialEq, Eq)]
pub struct BalanceUpdate {
    pub address: H160,
    pub amount: U256,
}

/// A transfer between the native chain and the EVM.
#[derive(Clone, Copy, Debug, PartialEq, Eq)]
pub enum BridgeTx {
    EvmIn(BalanceUpdate),
    EvmOut(BalanceUpdate),
}

/// A transaction that the core puts into a queue.
#[derive(Clone, Copy, Debug, PartialEq, Eq)]
pub enum QueueTx {
    BridgeTx(BridgeTx),
}

} // verus!
