use ain_evm::chain::{Account, BackendRequest, BlockHead, Vicinity};
use ain_evm::error::{EVMBackendError, EVMError};
use ain_evm::primitives::{H160, H256, U256};
use ain_evm::service::EVMCoreService;
use ain_evm::state::{
    AccountEvent, AccountQuery, BackendEvent, BackendQuery, BalanceQuery, CodeEvent, CodeQuery,
    NonceQuery, StorageEvent, StorageQuery,
};

type Service = EVMCoreService<(), (), ()>;

fn service() -> Service {
    EVMCoreService { tx_queues: (), trie_store: (), storage: () }
}

fn word(number: u64) -> U256 {
    U256::from_u64(number)
}

fn address() -> H160 {
    H160([7; 20])
}

fn block(number: u64, root: u8) -> BlockHead {
    BlockHead { number: word(number), state_root: H256([root; 32]) }
}

fn account() -> Account {
    Account {
        nonce: word(5),
        balance: word(1_000),
        storage_root: H256([3; 32]),
        code_hash: H256([4; 32]),
    }
}

fn plain(root: H256) -> BackendRequest {
    BackendRequest { state_root: root, vicinity: Vicinity::default() }
}

fn backend_error(text: &str) -> EVMBackendError {
    EVMBackendError::Other(text.to_string())
}

#[test]
fn account_is_read_at_the_block_asked_for() {
    let query = service().get_account(address(), word(9));
    assert_eq!(query, AccountQuery::FindBlock { address: address(), block_number: word(9) });
    let query = query.step(AccountEvent::Block(Some(block(9, 1))));
    assert_eq!(
        query,
        AccountQuery::ReadAccount { backend: plain(H256([1; 32])), address: address() }
    );
    let query = query.step(AccountEvent::Account(Ok(Some(account()))));
    assert_eq!(query, AccountQuery::Done(Ok(Some(account()))));
}

#[test]
fn account_falls_back_to_the_latest_block() {
    let query = service().get_account(address(), word(9)).step(AccountEvent::Block(None));
    assert_eq!(query, AccountQuery::FindLatest { address: address() });
    let query = query.step(AccountEvent::Block(Some(block(4, 2))));
    assert_eq!(
        query,
        AccountQuery::ReadAccount { backend: plain(H256([2; 32])), address: address() }
    );
}

#[test]
fn account_without_any_block_is_read_below_the_zero_root() {
    let query = service().get_account(address(), word(9));
    let query = query.step(AccountEvent::Block(None)).step(AccountEvent::Block(None));
    assert_eq!(
        query,
        AccountQuery::ReadAccount { backend: plain(H256([0; 32])), address: address() }
    );
}

#[test]
fn account_error_of_the_backend_is_wrapped() {
    let query = service()
        .get_account(address(), word(9))
        .step(AccountEvent::Block(Some(block(9, 1))))
        .step(AccountEvent::Account(Err(backend_error("no trie"))));
    assert_eq!(query, AccountQuery::Done(Err(EVMError::BackendError(backend_error("no trie")))));
}

#[test]
fn account_search_ignores_what_it_does_not_wait_for() {
    let query = service().get_account(address(), word(9));
    let query = query.step(AccountEvent::Account(Ok(Some(account()))));
    assert_eq!(query, AccountQuery::FindBlock { address: address(), block_number: word(9) });
    let done = AccountQuery::Done(Ok(None)).step(AccountEvent::Block(Some(block(1, 1))));
    assert_eq!(done, AccountQuery::Done(Ok(None)));
}

#[test]
fn balance_and_nonce_are_those_of_the_account() {
    let balance = service()
        .get_balance(address(), word(9))
        .step(AccountEvent::Block(Some(block(9, 1))))
        .step(AccountEvent::Account(Ok(Some(account()))));
    assert_eq!(balance, BalanceQuery::Done(Ok(word(1_000))));
    let nonce = service()
        .get_nonce(address(), word(9))
        .step(AccountEvent::Block(Some(block(9, 1))))
        .step(AccountEvent::Account(Ok(Some(account()))));
    assert_eq!(nonce, NonceQuery::Done(Ok(word(5))));
}

#[test]
fn balance_and_nonce_of_an_absent_account_are_zero() {
    let balance = service()
        .get_balance(address(), word(9))
        .step(AccountEvent::Block(None))
        .step(AccountEvent::Block(Some(block(2, 6))))
        .step(AccountEvent::Account(Ok(None)));
    assert_eq!(balance, BalanceQuery::Done(Ok(U256([0, 0, 0, 0]))));
    let nonce = service()
        .get_nonce(address(), word(9))
        .step(AccountEvent::Block(None))
        .step(AccountEvent::Block(None))
        .step(AccountEvent::Account(Ok(None)));
    assert_eq!(nonce, NonceQuery::Done(Ok(U256([0, 0, 0, 0]))));
}

#[test]
fn balance_and_nonce_hand_errors_on() {
    let balance = service()
        .get_balance(address(), word(9))
        .step(AccountEvent::Block(Some(block(9, 1))))
        .step(AccountEvent::Account(Err(backend_error("a"))));
    assert_eq!(balance, BalanceQuery::Done(Err(EVMError::BackendError(backend_error("a")))));
    let nonce = service()
        .get_nonce(address(), word(9))
        .step(AccountEvent::Block(Some(block(9, 1))))
        .step(AccountEvent::Account(Err(backend_error("b"))));
    assert_eq!(nonce, NonceQuery::Done(Err(EVMError::BackendError(backend_error("b")))));
}

#[test]
fn code_is_looked_up_by_the_hash_of_the_account() {
    let query = service()
        .get_code(address(), word(9))
        .step(CodeEvent::Account(AccountEvent::Block(Some(block(9, 1)))))
        .step(CodeEvent::Account(AccountEvent::Account(Ok(Some(account())))));
    assert_eq!(query, CodeQuery::ReadCode { code_hash: H256([4; 32]) });
    let query = query.step(CodeEvent::Code(Some(vec![1, 2, 3])));
    assert_eq!(query, CodeQuery::Done(Ok(Some(vec![1, 2, 3]))));
}

#[test]
fn code_of_an_absent_account_is_nothing() {
    let query = service()
        .get_code(address(), word(9))
        .step(CodeEvent::Account(AccountEvent::Block(Some(block(9, 1)))))
        .step(CodeEvent::Account(AccountEvent::Account(Ok(None))));
    assert_eq!(query, CodeQuery::Done(Ok(None)));
    let query = service()
        .get_code(address(), word(9))
        .step(CodeEvent::Account(AccountEvent::Block(Some(block(9, 1)))))
        .step(CodeEvent::Account(AccountEvent::Account(Err(backend_error("c")))));
    assert_eq!(query, CodeQuery::Done(Err(EVMError::BackendError(backend_error("c")))));
}

#[test]
fn storage_key_is_the_position_in_big_endian() {
    let position = U256([0x0102, 0, 0, 0x0300_0000_0000_0000]);
    let query = service()
        .get_storage_at(address(), position, word(9))
        .step(StorageEvent::Account(AccountEvent::Block(Some(block(9, 1)))))
        .step(StorageEvent::Account(AccountEvent::Account(Ok(Some(account())))));
    let mut key = [0u8; 32];
    key[0] = 3;
    key[30] = 1;
    key[31] = 2;
    assert_eq!(
        query,
        StorageQuery::ReadSlot { address: address(), storage_root: H256([3; 32]), key }
    );
    let query = query.step(StorageEvent::Slot(Ok(Some(vec![9]))));
    assert_eq!(query, StorageQuery::Done(Ok(Some(vec![9]))));
}

#[test]
fn storage_error_of_the_trie_keeps_its_text() {
    let query = service()
        .get_storage_at(address(), word(1), word(9))
        .step(StorageEvent::Account(AccountEvent::Block(Some(block(9, 1)))))
        .step(StorageEvent::Account(AccountEvent::Account(Ok(Some(account())))))
        .step(StorageEvent::Slot(Err("broken node".to_string())));
    assert_eq!(query, StorageQuery::Done(Err(EVMError::TrieError("broken node".to_string()))));
}

#[test]
fn storage_of_an_absent_account_is_nothing() {
    let query = service()
        .get_storage_at(address(), word(1), word(9))
        .step(StorageEvent::Account(AccountEvent::Block(None)))
        .step(StorageEvent::Account(AccountEvent::Block(None)))
        .step(StorageEvent::Account(AccountEvent::Account(Ok(None))));
    assert_eq!(query, StorageQuery::Done(Ok(None)));
}

#[test]
fn latest_block_backend_opens_the_latest_state() {
    let query = || -> BackendQuery<u8, u16> { service().get_latest_block_backend() };
    assert_eq!(query(), BackendQuery::FindLatest);
    assert_eq!(
        query().step(BackendEvent::Latest(Some(block(8, 5)))),
        BackendQuery::Open(plain(H256([5; 32])))
    );
    assert_eq!(
        query().step(BackendEvent::Latest(None)),
        BackendQuery::Open(plain(H256([0; 32])))
    );
}

#[test]
fn latest_block_backend_is_what_opening_gives() {
    let open = || -> BackendQuery<u8, u16> {
        service().get_latest_block_backend().step(BackendEvent::Latest(Some(block(8, 5))))
    };
    assert_eq!(open().step(BackendEvent::Opened(Ok(3))), BackendQuery::Done(Ok(3)));
    assert_eq!(open().step(BackendEvent::Opened(Err(4))), BackendQuery::Done(Err(4)));
}

#[test]
fn latest_block_backend_ignores_what_it_does_not_wait_for() {
    let query: BackendQuery<u8, u16> = service().get_latest_block_backend();
    let query = query.step(BackendEvent::Opened(Ok(3)));
    assert_eq!(query, BackendQuery::FindLatest);
    let query = query.step(BackendEvent::Latest(None)).step(BackendEvent::Latest(Some(block(8, 5))));
    assert_eq!(query, BackendQuery::Open(plain(H256([0; 32]))));
    let query = query.step(BackendEvent::Opened(Err(4))).step(BackendEvent::Opened(Ok(3)));
    assert_eq!(query, BackendQuery::Done(Err(4)));
}
