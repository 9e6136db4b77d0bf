//! Encoded transactions, as the crate `ethereum` reads them.
use crate::primitives::{H160, H256, U256};
use crate::transaction::{
    AccessEntry, AccessList, AccessListItem, Transaction, TransactionFields,
};
use ethereum::EnvelopedDecodable;
use ethereum::TransactionAction::{Call, Create};
use ethereum::TransactionV2;
use ethereum::TransactionV2::{Legacy, EIP1559, EIP2930};
use vstd::prelude::*;

verus! {

/// What an encoded transaction holds. The kind of transaction that came first has
/// no access list.
#[verifier::ext_equal]
pub struct Envelope {
    pub nonce: U256,
    pub gas_limit: U256,
    pub to: Option<H160>,
    pub value: U256,
    pub data: Seq<u8>,
    pub access_list: Option<Seq<AccessEntry>>,
}

impl Envelope {
    /// What the core reads of the transaction. One without an access list announces
    /// nothing.
    pub open spec fn fields(self) -> TransactionFields {
        TransactionFields {
            nonce: self.nonce,
            gas_limit: self.gas_limit,
            to: self.to,
            value: self.value,
            data: self.data,
            access_list: match self.access_list {
                Some(entries) => entries,
                None => Seq::empty(),
            },
        }
    }
}

/// What the encoded transaction `bytes` holds, or nothing where `bytes` encodes
/// no transaction.
pub uninterp spec fn decoded_transaction(bytes: Seq<u8>) -> Option<Envelope>;

/// Calls `<ethereum::TransactionV2 as ethereum::EnvelopedDecodable>::decode` for
/// all that a transaction of any kind has: nonce, gas limit, called account,
/// value and data. The result is [`decoded_transaction`] without the access list.
#[verifier::external_body]
pub(crate) fn decode_common(bytes: &[u8]) -> (r: Option<(U256, U256, Option<H160>, U256, Vec<u8>)>)
    ensures
        match decoded_transaction(bytes@) {
            Some(envelope) => r matches Some((nonce, gas_limit, to, value, data)) && nonce
                == envelope.nonce && gas_limit == envelope.gas_limit && to == envelope.to && value
                == envelope.value && data@ == envelope.data,
            None => r is None,
        },
{
    let (n, g, a, v, data) = match TransactionV2::decode(bytes).ok()? {
        Legacy(t) => (t.nonce, t.gas_limit, t.action, t.value, t.input),
        EIP2930(t) => (t.nonce, t.gas_limit, t.action, t.value, t.input),
        EIP1559(t) => (t.nonce, t.gas_limit, t.action, t.value, t.input),
    };
    let to = match a {
        Call(h) => Some(H160(h.0)),
        Create => None,
    };
    Some((U256(n.0), U256(g.0), to, U256(v.0), data))
}

/// Calls `<ethereum::TransactionV2 as ethereum::EnvelopedDecodable>::decode` for
/// the access list of [`decoded_transaction`], where the kind of transaction has
/// one.
#[verifier::external_body]
pub(crate) fn decode_access_list(bytes: &[u8]) -> (r: Option<Option<AccessList>>)
    ensures
        match decoded_transaction(bytes@) {
            Some(envelope) => r matches Some(list) && match envelope.access_list {
                Some(entries) => list matches Some(items) && crate::transaction::access_entries(
                    items@,
                ) == entries,
                None => list is None,
            },
            None => r is None,
        },
{
    let list = match TransactionV2::decode(bytes).ok()? {
        Legacy(_) => None,
        EIP2930(t) => Some(t.access_list),
        EIP1559(t) => Some(t.access_list),
    };
    Some(list.map(|items| items.into_iter().map(|item| AccessListItem {
        address: H160(item.address.0),
        storage_keys: item.storage_keys.into_iter().map(|key| H256(key.0)).collect(),
    }).collect()))
}

/// The transaction that `encoded` encodes.
pub fn decode_transaction(encoded: Vec<u8>) -> (r: Option<Transaction>)
    ensures
        match decoded_transaction(encoded@) {
            Some(envelope) => r matches Some(transaction) && transaction.encoded@ == encoded@
                && transaction@ == envelope.fields(),
            None => r is None,
        },
{
    match (decode_common(encoded.as_slice()), decode_access_list(encoded.as_slice())) {
        (Some((nonce, gas_limit, to, value, data)), Some(list)) => {
            let access_list = match list {
                Some(items) => items,
                None => Vec::new(),
            };
            let transaction = Transaction {
                encoded,
                nonce,
                gas_limit,
                to,
                value,
                data,
                access_list,
            };
            assert(transaction@ =~= decoded_transaction(encoded@)->Some_0.fields());
            Some(transaction)
        },
        _ => None,
    }
}

} // verus!
