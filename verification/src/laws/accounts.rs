//! What the questions on accounts ask for and end with, by the answers that they get.
use crate::chain::{Account, BackendRequest, BlockHead};
use crate::error::{EVMBackendError, EVMError};
use crate::primitives::{H160, U256};
use crate::state::{
    AccountEvent, AccountQuery, BackendEvent, BackendQuery, BalanceQuery, CodeEvent, CodeQuery,
    NonceQuery, StorageEvent, StorageQuery,
};
use vstd::prelude::*;

verus! {

/// Whether a state is that of the block that was found, else that of the latest block,
/// else the one below the root of zeros.
pub open spec fn is_state_at(
    backend: BackendRequest,
    block: Option<BlockHead>,
    latest: Option<BlockHead>,
) -> bool {
    &&& block matches Some(b) ==> backend.state_root == b.state_root
    &&& block is None ==> (latest matches Some(b) ==> backend.state_root == b.state_root)
    &&& block is None && latest is None ==> crate::laws::values::all_zero(backend.state_root.0@)
    &&& crate::laws::values::nothing_set(backend.vicinity)
}

/// Whether a search waits for this account in the state of that block.
pub open spec fn waits_for_account(
    query: AccountQuery,
    address: H160,
    block: Option<BlockHead>,
    latest: Option<BlockHead>,
) -> bool {
    query matches AccountQuery::ReadAccount { backend, address: asked } && asked == address
        && is_state_at(backend, block, latest)
}

/// Whether the search waits for such an answer.
pub open spec fn account_waits(query: AccountQuery, event: AccountEvent) -> bool {
    match event {
        AccountEvent::Block(_) => query is FindBlock || query is FindLatest,
        AccountEvent::Account(_) => query is ReadAccount,
    }
}

/// A search for an account asks for the account in the state of its block, and in that
/// of the latest block only where its own is not there. It ends with the account, or
/// without one, as it was read, and with the backend's error where it could not be read.
pub proof fn law_account_by_answers(
    address: H160,
    block_number: U256,
    block: Option<BlockHead>,
    latest: Option<BlockHead>,
    account: Option<Account>,
    error: EVMBackendError,
)
    ensures
        ({
            let first = (AccountQuery::FindBlock { address, block_number }).after(
                AccountEvent::Block(block),
            );
            let asked = if block is Some {
                first
            } else {
                first.after(AccountEvent::Block(latest))
            };
            &&& block is None ==> first == (AccountQuery::FindLatest { address })
            &&& waits_for_account(asked, address, block, latest)
            &&& asked.after(AccountEvent::Account(Ok(account))) == AccountQuery::Done(Ok(account))
            &&& asked.after(AccountEvent::Account(Err(error))) == AccountQuery::Done(
                Err(EVMError::BackendError(error)),
            )
        }),
{
}

/// A search that has ended, or waits for something else, takes no notice of an answer.
pub proof fn law_account_ignores(query: AccountQuery, event: AccountEvent)
    requires
        !account_waits(query, event),
    ensures
        query.after(event) == query,
{
}

/// A search for a balance is one for its account: it ends with the balance of the
/// account that is read, with zero where there is none, and with the backend's error.
pub proof fn law_balance_by_answers(
    address: H160,
    block_number: U256,
    block: Option<BlockHead>,
    latest: Option<BlockHead>,
    account: Account,
    error: EVMBackendError,
)
    ensures
        ({
            let first = BalanceQuery::Account(
                AccountQuery::FindBlock { address, block_number },
            ).after(AccountEvent::Block(block));
            let asked = if block is Some {
                first
            } else {
                first.after(AccountEvent::Block(latest))
            };
            &&& block is None ==> first == BalanceQuery::Account(
                AccountQuery::FindLatest { address },
            )
            &&& asked matches BalanceQuery::Account(query)
            &&& waits_for_account(query, address, block, latest)
            &&& asked.after(AccountEvent::Account(Ok(Some(account)))) == BalanceQuery::Done(
                Ok(account.balance),
            )
            &&& asked.after(AccountEvent::Account(Ok(None))) matches BalanceQuery::Done(Ok(balance))
            &&& balance.value() == 0
            &&& asked.after(AccountEvent::Account(Err(error))) == BalanceQuery::Done(
                Err(EVMError::BackendError(error)),
            )
        }),
{
}

/// A search for a nonce is one for its account: it ends with the nonce of the account
/// that is read, with zero where there is none, and with the backend's error.
pub proof fn law_nonce_by_answers(
    address: H160,
    block_number: U256,
    block: Option<BlockHead>,
    latest: Option<BlockHead>,
    account: Account,
    error: EVMBackendError,
)
    ensures
        ({
            let first = NonceQuery::Account(AccountQuery::FindBlock { address, block_number }).after(
                AccountEvent::Block(block),
            );
            let asked = if block is Some {
                first
            } else {
                first.after(AccountEvent::Block(latest))
            };
            &&& block is None ==> first == NonceQuery::Account(AccountQuery::FindLatest { address })
            &&& asked matches NonceQuery::Account(query)
            &&& waits_for_account(query, address, block, latest)
            &&& asked.after(AccountEvent::Account(Ok(Some(account)))) == NonceQuery::Done(
                Ok(account.nonce),
            )
            &&& asked.after(AccountEvent::Account(Ok(None))) matches NonceQuery::Done(Ok(nonce))
            &&& nonce.value() == 0
            &&& asked.after(AccountEvent::Account(Err(error))) == NonceQuery::Done(
                Err(EVMError::BackendError(error)),
            )
        }),
{
}

/// A search for code asks for the code with the hash that the account has, and ends
/// with the code as it was stored; where there is no account it asks for none.
pub proof fn law_code_by_answers(
    address: H160,
    block_number: U256,
    block: Option<BlockHead>,
    latest: Option<BlockHead>,
    account: Account,
    error: EVMBackendError,
    code: Option<Vec<u8>>,
)
    ensures
        ({
            let first = CodeQuery::Account(AccountQuery::FindBlock { address, block_number }).after(
                CodeEvent::Account(AccountEvent::Block(block)),
            );
            let asked = if block is Some {
                first
            } else {
                first.after(CodeEvent::Account(AccountEvent::Block(latest)))
            };
            let read = asked.after(CodeEvent::Account(AccountEvent::Account(Ok(Some(account)))));
            &&& block is None ==> first == CodeQuery::Account(AccountQuery::FindLatest { address })
            &&& asked matches CodeQuery::Account(query)
            &&& waits_for_account(query, address, block, latest)
            &&& read == (CodeQuery::ReadCode { code_hash: account.code_hash })
            &&& read.after(CodeEvent::Code(code)) == CodeQuery::Done(Ok(code))
            &&& asked.after(CodeEvent::Account(AccountEvent::Account(Ok(None)))) == CodeQuery::Done(
                Ok(None),
            )
            &&& asked.after(CodeEvent::Account(AccountEvent::Account(Err(error))))
                == CodeQuery::Done(Err(EVMError::BackendError(error)))
        }),
{
}

/// A search in the storage of an account asks the trie below the account's storage root
/// for the 32 bytes of the position, and ends with the word as it was stored, or with
/// the text of the trie's error; where there is no account it asks for nothing.
pub proof fn law_word_by_answers(
    address: H160,
    position: U256,
    block_number: U256,
    block: Option<BlockHead>,
    latest: Option<BlockHead>,
    account: Account,
    error: EVMBackendError,
    word: Option<Vec<u8>>,
    text: String,
)
    ensures
        ({
            let first = (StorageQuery::Account {
                query: AccountQuery::FindBlock { address, block_number },
                address,
                position,
            }).after(StorageEvent::Account(AccountEvent::Block(block)));
            let asked = if block is Some {
                first
            } else {
                first.after(StorageEvent::Account(AccountEvent::Block(latest)))
            };
            let read = asked.after(
                StorageEvent::Account(AccountEvent::Account(Ok(Some(account)))),
            );
            &&& block is None ==> first == (StorageQuery::Account {
                query: AccountQuery::FindLatest { address },
                address,
                position,
            })
            &&& asked matches StorageQuery::Account { query, address: kept, position: place }
            &&& waits_for_account(query, address, block, latest)
            &&& kept == address && place == position
            &&& read matches StorageQuery::ReadSlot { address: owner, storage_root, key }
            &&& owner == address && storage_root == account.storage_root
            &&& crate::primitives::big_endian_value(key@) == position.value()
            &&& read.after(StorageEvent::Slot(Ok(word))) == StorageQuery::Done(Ok(word))
            &&& read.after(StorageEvent::Slot(Err(text))) == StorageQuery::Done(
                Err(EVMError::TrieError(text)),
            )
            &&& asked.after(StorageEvent::Account(AccountEvent::Account(Ok(None))))
                == StorageQuery::Done(Ok(None))
            &&& asked.after(StorageEvent::Account(AccountEvent::Account(Err(error))))
                == StorageQuery::Done(Err(EVMError::BackendError(error)))
        }),
{
    crate::laws::law_slot_keys(position, position);
}

/// A question that its search for the account keeps waiting goes on waiting.
pub proof fn law_questions_ignore(
    query: AccountQuery,
    event: AccountEvent,
    address: H160,
    position: U256,
    code: Option<Vec<u8>>,
    slot: Result<Option<Vec<u8>>, String>,
)
    requires
        !account_waits(query, event),
        query !is Done,
    ensures
        BalanceQuery::Account(query).after(event) == BalanceQuery::Account(query),
        NonceQuery::Account(query).after(event) == NonceQuery::Account(query),
        CodeQuery::Account(query).after(CodeEvent::Account(event)) == CodeQuery::Account(query),
        CodeQuery::Account(query).after(CodeEvent::Code(code)) == CodeQuery::Account(query),
        (StorageQuery::Account { query, address, position }).after(StorageEvent::Account(event))
            == (StorageQuery::Account { query, address, position }),
        (StorageQuery::Account { query, address, position }).after(StorageEvent::Slot(slot)) == (
        StorageQuery::Account { query, address, position }),
{
}

/// A question that has ended keeps its result, and one that waits for code or for a
/// word takes no notice of accounts.
pub proof fn law_answered_questions_stay(
    number: Result<U256, EVMError>,
    bytes: Result<Option<Vec<u8>>, EVMError>,
    event: AccountEvent,
    code: CodeEvent,
    slot: StorageEvent,
    code_query: CodeQuery,
    storage_query: StorageQuery,
)
    requires
        code_query is ReadCode,
        storage_query is ReadSlot,
    ensures
        BalanceQuery::Done(number).after(event) == BalanceQuery::Done(number),
        NonceQuery::Done(number).after(event) == NonceQuery::Done(number),
        CodeQuery::Done(bytes).after(code) == CodeQuery::Done(bytes),
        StorageQuery::Done(bytes).after(slot) == StorageQuery::Done(bytes),
        code_query.after(CodeEvent::Account(event)) == code_query,
        storage_query.after(StorageEvent::Account(event)) == storage_query,
{
}

/// The latest state is opened below the root of the latest block, or below the root of
/// zeros, with nothing set around it, and what opening it gives is kept as it is. An
/// answer that is not waited for changes nothing.
pub proof fn law_latest_state_by_answers<B, E>(
    latest: Option<BlockHead>,
    request: BackendRequest,
    reply: Result<B, E>,
    event: BackendEvent<B, E>,
)
    ensures
        BackendQuery::<B, E>::FindLatest.after(BackendEvent::Latest(latest)) matches BackendQuery::Open(
            backend,
        ) && is_state_at(backend, latest, None),
        BackendQuery::<B, E>::Open(request).after(BackendEvent::Opened(reply)) == BackendQuery::<
            B,
            E,
        >::Done(reply),
        BackendQuery::<B, E>::FindLatest.after(BackendEvent::Opened(reply)) == BackendQuery::<
            B,
            E,
        >::FindLatest,
        BackendQuery::<B, E>::Open(request).after(BackendEvent::Latest(latest)) == BackendQuery::<
            B,
            E,
        >::Open(request),
        BackendQuery::<B, E>::Done(reply).after(event) == BackendQuery::<B, E>::Done(reply),
{
}

} // verus!
