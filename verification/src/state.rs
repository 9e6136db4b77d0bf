//! Questions on the accounts of the state.
use crate::chain::{state_root_of, Account, BackendRequest, BlockHead, Vicinity};
use crate::error::{EVMBackendError, EVMError};
use crate::host::Host;
use crate::outside::words::to_big_endian;
use crate::primitives::{H160, H256, U256};
use crate::service::EVMCoreService;
use vstd::prelude::*;

verus! {

/// A search for an account at a block.
#[derive(Debug, PartialEq, Eq)]
pub enum AccountQuery {
    /// Waits for the block with this number.
    FindBlock { address: H160, block_number: U256 },
    /// Waits for the latest block.
    FindLatest { address: H160 },
    /// Waits for the account in the state that the request opens.
    ReadAccount { backend: BackendRequest, address: H160 },
    /// The search has ended.
    Done(Result<Option<Account>, EVMError>),
}

/// An answer that an [`AccountQuery`] waits for.
#[derive(Debug, PartialEq, Eq)]
pub enum AccountEvent {
    Block(Option<BlockHead>),
    Account(Result<Option<Account>, EVMBackendError>),
}

/// The state below a root, with nothing set around it.
pub open spec fn plain_backend(state_root: H256) -> BackendRequest {
    BackendRequest { state_root, vicinity: Vicinity::unset() }
}

/// The result of an operation that gives a backend error on.
pub open spec fn with_backend_error<A>(r: Result<A, EVMBackendError>) -> Result<A, EVMError> {
    match r {
        Ok(a) => Ok(a),
        Err(e) => Err(EVMError::BackendError(e)),
    }
}

impl AccountQuery {
    /// Where the search stands after an answer. The state is that of the block
    /// with the number, else that of the latest block, else the one below the
    /// root of zeros. An answer that the search does not wait for changes
    /// nothing.
    pub open spec fn after(self, event: AccountEvent) -> Self {
        match (self, event) {
            (
                AccountQuery::FindBlock { address, block_number },
                AccountEvent::Block(Some(block)),
            ) => AccountQuery::ReadAccount { backend: plain_backend(block.state_root), address },
            (
                AccountQuery::FindBlock { address, block_number },
                AccountEvent::Block(None),
            ) => AccountQuery::FindLatest { address },
            (
                AccountQuery::FindLatest { address },
                AccountEvent::Block(found),
            ) => AccountQuery::ReadAccount {
                backend: plain_backend(crate::chain::root_of(found)),
                address,
            },
            (
                AccountQuery::ReadAccount { backend, address },
                AccountEvent::Account(reply),
            ) => AccountQuery::Done(with_backend_error(reply)),
            _ => self,
        }
    }

    /// Takes an answer.
    pub fn step(self, event: AccountEvent) -> (r: Self)
        ensures
            r == self.after(event),
    {
        match (self, event) {
            (AccountQuery::FindBlock { address, .. }, AccountEvent::Block(Some(block))) => {
                AccountQuery::ReadAccount {
                    backend: BackendRequest {
                        state_root: block.state_root,
                        vicinity: Vicinity::default(),
                    },
                    address,
                }
            },
            (
                AccountQuery::FindBlock { address, .. },
                AccountEvent::Block(None),
            ) => AccountQuery::FindLatest { address },
            (AccountQuery::FindLatest { address }, AccountEvent::Block(found)) => {
                AccountQuery::ReadAccount {
                    backend: BackendRequest {
                        state_root: state_root_of(found),
                        vicinity: Vicinity::default(),
                    },
                    address,
                }
            },
            (
                AccountQuery::ReadAccount { .. },
                AccountEvent::Account(Ok(account)),
            ) => AccountQuery::Done(Ok(account)),
            (
                AccountQuery::ReadAccount { .. },
                AccountEvent::Account(Err(e)),
            ) => AccountQuery::Done(Err(EVMError::from(e))),
            (query, _) => query,
        }
    }
}

/// The balance of an account, or zero where there is no account.
pub open spec fn balance_in(r: Result<Option<Account>, EVMError>) -> Result<U256, EVMError> {
    match r {
        Ok(Some(account)) => Ok(account.balance),
        Ok(None) => Ok(U256::zeros()),
        Err(e) => Err(e),
    }
}

/// The nonce of an account, or zero where there is no account.
pub open spec fn nonce_in(r: Result<Option<Account>, EVMError>) -> Result<U256, EVMError> {
    match r {
        Ok(Some(account)) => Ok(account.nonce),
        Ok(None) => Ok(U256::zeros()),
        Err(e) => Err(e),
    }
}

/// A search for the balance of an account.
#[derive(Debug, PartialEq, Eq)]
pub enum BalanceQuery {
    /// Waits for what the search for the account waits for.
    Account(AccountQuery),
    /// The search has ended.
    Done(Result<U256, EVMError>),
}

impl BalanceQuery {
    /// The search for the balance, given the search for the account.
    pub open spec fn of(query: AccountQuery) -> Self {
        match query {
            AccountQuery::Done(r) => BalanceQuery::Done(balance_in(r)),
            _ => BalanceQuery::Account(query),
        }
    }

    /// Where the search stands after an answer.
    pub open spec fn after(self, event: AccountEvent) -> Self {
        match self {
            BalanceQuery::Account(query) => BalanceQuery::of(query.after(event)),
            BalanceQuery::Done(_) => self,
        }
    }

    /// Takes an answer.
    pub fn step(self, event: AccountEvent) -> (r: Self)
        ensures
            r == self.after(event),
    {
        match self {
            BalanceQuery::Account(query) => match query.step(event) {
                AccountQuery::Done(Ok(Some(account))) => BalanceQuery::Done(Ok(account.balance)),
                AccountQuery::Done(Ok(None)) => BalanceQuery::Done(Ok(U256::zero())),
                AccountQuery::Done(Err(e)) => BalanceQuery::Done(Err(e)),
                next => BalanceQuery::Account(next),
            },
            done => done,
        }
    }
}

/// A search for the nonce of an account.
#[derive(Debug, PartialEq, Eq)]
pub enum NonceQuery {
    /// Waits for what the search for the account waits for.
    Account(AccountQuery),
    /// The search has ended.
    Done(Result<U256, EVMError>),
}

impl NonceQuery {
    /// The search for the nonce, given the search for the account.
    pub open spec fn of(query: AccountQuery) -> Self {
        match query {
            AccountQuery::Done(r) => NonceQuery::Done(nonce_in(r)),
            _ => NonceQuery::Account(query),
        }
    }

    /// Where the search stands after an answer.
    pub open spec fn after(self, event: AccountEvent) -> Self {
        match self {
            NonceQuery::Account(query) => NonceQuery::of(query.after(event)),
            NonceQuery::Done(_) => self,
        }
    }

    /// Takes an answer.
    pub fn step(self, event: AccountEvent) -> (r: Self)
        ensures
            r == self.after(event),
    {
        match self {
            NonceQuery::Account(query) => match query.step(event) {
                AccountQuery::Done(Ok(Some(account))) => NonceQuery::Done(Ok(account.nonce)),
                AccountQuery::Done(Ok(None)) => NonceQuery::Done(Ok(U256::zero())),
                AccountQuery::Done(Err(e)) => NonceQuery::Done(Err(e)),
                next => NonceQuery::Account(next),
            },
            done => done,
        }
    }
}

/// A search for the code of an account.
#[derive(Debug, PartialEq, Eq)]
pub enum CodeQuery {
    /// Waits for what the search for the account waits for.
    Account(AccountQuery),
    /// Waits for the code with this hash.
    ReadCode { code_hash: H256 },
    /// The search has ended.
    Done(Result<Option<Vec<u8>>, EVMError>),
}

/// An answer that a [`CodeQuery`] waits for.
#[derive(Debug, PartialEq, Eq)]
pub enum CodeEvent {
    Account(AccountEvent),
    Code(Option<Vec<u8>>),
}

impl CodeQuery {
    /// The search for the code, given the search for the account. An account
    /// that is not there has no code.
    pub open spec fn of(query: AccountQuery) -> Self {
        match query {
            AccountQuery::Done(Ok(Some(account))) => CodeQuery::ReadCode {
                code_hash: account.code_hash,
            },
            AccountQuery::Done(Ok(None)) => CodeQuery::Done(Ok(None)),
            AccountQuery::Done(Err(e)) => CodeQuery::Done(Err(e)),
            _ => CodeQuery::Account(query),
        }
    }

    /// Where the search stands after an answer. An answer that the search does
    /// not wait for changes nothing.
    pub open spec fn after(self, event: CodeEvent) -> Self {
        match (self, event) {
            (CodeQuery::Account(query), CodeEvent::Account(e)) => CodeQuery::of(query.after(e)),
            (CodeQuery::ReadCode { code_hash }, CodeEvent::Code(code)) => CodeQuery::Done(Ok(code)),
            _ => self,
        }
    }

    /// Takes an answer.
    pub fn step(self, event: CodeEvent) -> (r: Self)
        ensures
            r == self.after(event),
    {
        match (self, event) {
            (CodeQuery::Account(query), CodeEvent::Account(e)) => match query.step(e) {
                AccountQuery::Done(Ok(Some(account))) => CodeQuery::ReadCode {
                    code_hash: account.code_hash,
                },
                AccountQuery::Done(Ok(None)) => CodeQuery::Done(Ok(None)),
                AccountQuery::Done(Err(e)) => CodeQuery::Done(Err(e)),
                next => CodeQuery::Account(next),
            },
            (CodeQuery::ReadCode { .. }, CodeEvent::Code(code)) => CodeQuery::Done(Ok(code)),
            (query, _) => query,
        }
    }
}

/// A search for a word in the storage of an account.
#[derive(Debug, PartialEq, Eq)]
pub enum StorageQuery {
    /// Waits for what the search for the account waits for.
    Account { query: AccountQuery, address: H160, position: U256 },
    /// Waits for what the storage trie of the account has below the key.
    ReadSlot { address: H160, storage_root: H256, key: [u8; 32] },
    /// The search has ended.
    Done(Result<Option<Vec<u8>>, EVMError>),
}

/// An answer that a [`StorageQuery`] waits for. An error of the trie is told by
/// its text.
#[derive(Debug, PartialEq, Eq)]
pub enum StorageEvent {
    Account(AccountEvent),
    Slot(Result<Option<Vec<u8>>, String>),
}

/// The 32 bytes of a number, the highest byte first.
pub open spec fn slot_key(position: U256) -> [u8; 32] {
    let n = position.value();
    let at = |place: nat| crate::primitives::byte_at(n, place);
    [
        at(31), at(30), at(29), at(28), at(27), at(26), at(25), at(24),
        at(23), at(22), at(21), at(20), at(19), at(18), at(17), at(16),
        at(15), at(14), at(13), at(12), at(11), at(10), at(9), at(8),
        at(7), at(6), at(5), at(4), at(3), at(2), at(1), at(0),
    ]
}

/// The key of a storage slot.
fn key_of(position: &U256) -> (r: [u8; 32])
    ensures
        r == slot_key(*position),
{
    let key = to_big_endian(position.0);
    assert(key =~= slot_key(*position));
    key
}

impl StorageQuery {
    /// The search for the word, given the search for the account. An account
    /// that is not there has nothing stored.
    pub open spec fn of(query: AccountQuery, address: H160, position: U256) -> Self {
        match query {
            AccountQuery::Done(Ok(Some(account))) => StorageQuery::ReadSlot {
                address,
                storage_root: account.storage_root,
                key: slot_key(position),
            },
            AccountQuery::Done(Ok(None)) => StorageQuery::Done(Ok(None)),
            AccountQuery::Done(Err(e)) => StorageQuery::Done(Err(e)),
            _ => StorageQuery::Account { query, address, position },
        }
    }

    /// Where the search stands after an answer. An answer that the search does
    /// not wait for changes nothing.
    pub open spec fn after(self, event: StorageEvent) -> Self {
        match (self, event) {
            (
                StorageQuery::Account { query, address, position },
                StorageEvent::Account(e),
            ) => StorageQuery::of(query.after(e), address, position),
            (
                StorageQuery::ReadSlot { address, storage_root, key },
                StorageEvent::Slot(Ok(word)),
            ) => StorageQuery::Done(Ok(word)),
            (
                StorageQuery::ReadSlot { address, storage_root, key },
                StorageEvent::Slot(Err(text)),
            ) => StorageQuery::Done(Err(EVMError::TrieError(text))),
            _ => self,
        }
    }

    /// Takes an answer.
    pub fn step(self, event: StorageEvent) -> (r: Self)
        ensures
            r == self.after(event),
    {
        match (self, event) {
            (
                StorageQuery::Account { query, address, position },
                StorageEvent::Account(e),
            ) => match query.step(e) {
                AccountQuery::Done(Ok(Some(account))) => StorageQuery::ReadSlot {
                    address,
                    storage_root: account.storage_root,
                    key: key_of(&position),
                },
                AccountQuery::Done(Ok(None)) => StorageQuery::Done(Ok(None)),
                AccountQuery::Done(Err(e)) => StorageQuery::Done(Err(e)),
                next => StorageQuery::Account { query: next, address, position },
            },
            (
                StorageQuery::ReadSlot { .. },
                StorageEvent::Slot(Ok(word)),
            ) => StorageQuery::Done(Ok(word)),
            (
                StorageQuery::ReadSlot { .. },
                StorageEvent::Slot(Err(text)),
            ) => StorageQuery::Done(Err(EVMError::TrieError(text))),
            (query, _) => query,
        }
    }
}

/// A search for the state of the latest block. `B` is the state once it is open, and
/// `E` the error of opening it.
#[derive(Debug, PartialEq, Eq)]
pub enum BackendQuery<B, E> {
    /// Waits for the latest block.
    FindLatest,
    /// Waits for the state to be opened.
    Open(BackendRequest),
    /// The search has ended.
    Done(Result<B, E>),
}

/// An answer that a [`BackendQuery`] waits for.
#[derive(Debug, PartialEq, Eq)]
pub enum BackendEvent<B, E> {
    Latest(Option<BlockHead>),
    Opened(Result<B, E>),
}

impl<B, E> BackendQuery<B, E> {
    /// Where the search stands after an answer. The state is that of the latest
    /// block, or the one below the root of zeros, and what opening it gives is the
    /// result as it is. An answer that the search does not wait for changes nothing.
    pub open spec fn after(self, event: BackendEvent<B, E>) -> Self {
        match (self, event) {
            (BackendQuery::FindLatest, BackendEvent::Latest(latest)) => BackendQuery::Open(
                plain_backend(crate::chain::root_of(latest)),
            ),
            (BackendQuery::Open(_), BackendEvent::Opened(reply)) => BackendQuery::Done(reply),
            _ => self,
        }
    }

    /// Takes an answer.
    pub fn step(self, event: BackendEvent<B, E>) -> (r: Self)
        ensures
            r == self.after(event),
    {
        match (self, event) {
            (BackendQuery::FindLatest, BackendEvent::Latest(latest)) => BackendQuery::Open(
                BackendRequest { state_root: state_root_of(latest), vicinity: Vicinity::default() },
            ),
            (BackendQuery::Open(_), BackendEvent::Opened(reply)) => BackendQuery::Done(reply),
            (query, _) => query,
        }
    }
}

impl<Q, T, S> EVMCoreService<Q, T, S> {
    /// Looks for an account at the block with a number, or at the latest block
    /// where there is no block with that number.
    pub fn get_account(&self, address: H160, block_number: U256) -> (r: AccountQuery)
        ensures
            r == (AccountQuery::FindBlock { address, block_number }),
            forall|host: Host<()>| #[trigger]
                crate::host::run(r, host, 3) == AccountQuery::Done(
                    host.account_at(address, block_number),
                ),
    {
        let query = AccountQuery::FindBlock { address, block_number };
        proof {
            assert forall|host: Host<()>| #[trigger]
                crate::host::run(query, host, 3) == AccountQuery::Done(
                    host.account_at(address, block_number),
                ) by {
                crate::laws::law_get_account(host, address, block_number);
            }
        }
        query
    }

    /// Looks for the code of an account.
    pub fn get_code(&self, address: H160, block_number: U256) -> (r: CodeQuery)
        ensures
            r == CodeQuery::Account(AccountQuery::FindBlock { address, block_number }),
            forall|host: Host<()>| #[trigger]
                crate::host::run(r, host, 4) == CodeQuery::Done(
                    host.code_at(address, block_number),
                ),
    {
        let query = CodeQuery::Account(self.get_account(address, block_number));
        proof {
            assert forall|host: Host<()>| #[trigger]
                crate::host::run(query, host, 4) == CodeQuery::Done(
                    host.code_at(address, block_number),
                ) by {
                crate::laws::law_get_code(host, address, block_number);
            }
        }
        query
    }

    /// Looks for a word in the storage of an account.
    pub fn get_storage_at(&self, address: H160, position: U256, block_number: U256) -> (r:
        StorageQuery)
        ensures
            r == (StorageQuery::Account {
                query: AccountQuery::FindBlock { address, block_number },
                address,
                position,
            }),
            forall|host: Host<()>| #[trigger]
                crate::host::run(r, host, 4) == StorageQuery::Done(
                    host.word_at(address, position, block_number),
                ),
    {
        let query = StorageQuery::Account {
            query: self.get_account(address, block_number),
            address,
            position,
        };
        proof {
            assert forall|host: Host<()>| #[trigger]
                crate::host::run(query, host, 4) == StorageQuery::Done(
                    host.word_at(address, position, block_number),
                ) by {
                crate::laws::law_get_storage_at(host, address, position, block_number);
            }
        }
        query
    }

    /// Looks for the balance of an account.
    pub fn get_balance(&self, address: H160, block_number: U256) -> (r: BalanceQuery)
        ensures
            r == BalanceQuery::Account(AccountQuery::FindBlock { address, block_number }),
            forall|host: Host<()>| #[trigger]
                crate::host::run(r, host, 3) == BalanceQuery::Done(
                    host.balance_at(address, block_number),
                ),
    {
        let query = BalanceQuery::Account(self.get_account(address, block_number));
        proof {
            assert forall|host: Host<()>| #[trigger]
                crate::host::run(query, host, 3) == BalanceQuery::Done(
                    host.balance_at(address, block_number),
                ) by {
                crate::laws::law_get_balance(host, address, block_number);
            }
        }
        query
    }

    /// Looks for the nonce of an account.
    pub fn get_nonce(&self, address: H160, block_number: U256) -> (r: NonceQuery)
        ensures
            r == NonceQuery::Account(AccountQuery::FindBlock { address, block_number }),
            forall|host: Host<()>| #[trigger]
                crate::host::run(r, host, 3) == NonceQuery::Done(
                    host.nonce_at(address, block_number),
                ),
    {
        let query = NonceQuery::Account(self.get_account(address, block_number));
        proof {
            assert forall|host: Host<()>| #[trigger]
                crate::host::run(query, host, 3) == NonceQuery::Done(
                    host.nonce_at(address, block_number),
                ) by {
                crate::laws::law_get_nonce(host, address, block_number);
            }
        }
        query
    }

    /// Opens the state of the latest block, or the one below the root of zeros where
    /// there is no block. What opening it gives, the state or the error, is the result.
    pub fn get_latest_block_backend<B, E>(&self) -> (r: BackendQuery<B, E>)
        ensures
            r == BackendQuery::<B, E>::FindLatest,
            forall|latest: Option<BlockHead>| #[trigger]
                r.after(BackendEvent::Latest(latest)) == BackendQuery::<B, E>::Open(
                    plain_backend(crate::chain::root_of(latest)),
                ),
            forall|latest: Option<BlockHead>, reply: Result<B, E>| #[trigger]
                r.after(BackendEvent::Latest(latest)).after(BackendEvent::Opened(reply))
                    == BackendQuery::<B, E>::Done(reply),
    {
        BackendQuery::FindLatest
    }
}

} // verus!
