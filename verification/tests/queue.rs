use ain_evm::chain::{Account, BlockHead};
use ain_evm::error::{EVMBackendError, EVMError, InsufficientBalance, QueueError};
use ain_evm::primitives::{H160, H256, U256};
use ain_evm::queue::{
    ContextOperation, NextNonce, NextNonceEvent, QueueCommand, QueueOperation, TransferRequest,
    Withdrawal, WithdrawalEvent,
};
use ain_evm::service::EVMCoreService;
use ain_evm::state::{AccountEvent, AccountQuery, BalanceQuery, NonceQuery};
use ain_evm::transaction::{BalanceUpdate, BridgeTx, QueueTx};

type Service = EVMCoreService<(), (), ()>;

fn service() -> Service {
    EVMCoreService { tx_queues: (), trie_store: (), storage: () }
}

fn word(number: u64) -> U256 {
    U256::from_u64(number)
}

fn address() -> H160 {
    H160([7; 20])
}

fn hash() -> [u8; 32] {
    [8; 32]
}

fn head(number: u64) -> BlockHead {
    BlockHead { number: word(number), state_root: H256([1; 32]) }
}

fn account(balance: u64, nonce: u64) -> Account {
    Account {
        nonce: word(nonce),
        balance: word(balance),
        storage_root: H256([0; 32]),
        code_hash: H256([0; 32]),
    }
}

fn push(tx: BridgeTx) -> QueueCommand {
    QueueCommand::Push { context: 3, tx: QueueTx::BridgeTx(tx), hash: hash() }
}

fn withdrawal(balance: u64, amount: u64) -> Withdrawal {
    service()
        .sub_balance(3, address(), word(amount), hash())
        .step(WithdrawalEvent::Latest(Some(head(6))))
        .step(WithdrawalEvent::Account(AccountEvent::Block(Some(head(6)))))
        .step(WithdrawalEvent::Account(AccountEvent::Account(Ok(Some(account(balance, 0))))))
}

#[test]
fn deposit_is_queued_as_it_is() {
    let operation = service().add_balance(3, address(), word(50), hash());
    let update = BalanceUpdate { address: address(), amount: word(50) };
    assert_eq!(operation, QueueOperation::Issue(push(BridgeTx::EvmIn(update))));
    assert_eq!(operation.step(Ok(())), QueueOperation::Done(Ok(())));
}

#[test]
fn queue_errors_are_wrapped() {
    let refused = || QueueError("no such context".to_string());
    let expected = || QueueOperation::Done(Err(EVMError::QueueError(refused())));
    assert_eq!(service().add_balance(3, address(), word(50), hash()).step(Err(refused())), expected());
    assert_eq!(service().clear(3).step(Err(refused())), expected());
    assert_eq!(service().remove_txs_by_sender(3, address()).step(Err(refused())), expected());
    assert_eq!(expected().step(Ok(())), expected());
}

#[test]
fn context_is_what_the_queues_answer() {
    let order = service().get_context();
    assert_eq!(order, ContextOperation::Issue(QueueCommand::NewContext));
    assert_eq!(order.step(41), ContextOperation::Done(41));
    assert_eq!(order.step(41).step(42), ContextOperation::Done(41));
}

#[test]
fn queue_orders_name_their_context() {
    assert_eq!(service().clear(11), QueueOperation::Issue(QueueCommand::Clear { context: 11 }));
    assert_eq!(service().remove(12), QueueCommand::Remove { context: 12 });
    assert_eq!(
        service().remove_txs_by_sender(13, address()),
        QueueOperation::Issue(QueueCommand::RemoveBySender { context: 13, address: address() })
    );
    assert_eq!(service().clear(11).step(Ok(())), QueueOperation::Done(Ok(())));
}

#[test]
fn withdrawal_looks_at_the_latest_block() {
    let step = service().sub_balance(3, address(), word(50), hash());
    let request =
        TransferRequest { context: 3, address: address(), amount: word(50), hash: hash() };
    assert_eq!(step, Withdrawal::FindLatest(request));
    let search = |number: u64| {
        BalanceQuery::Account(AccountQuery::FindBlock {
            address: address(),
            block_number: word(number),
        })
    };
    assert_eq!(
        step.step(WithdrawalEvent::Latest(Some(head(6)))),
        Withdrawal::ReadBalance { request, balance: search(6) }
    );
    assert_eq!(
        Withdrawal::FindLatest(request).step(WithdrawalEvent::Latest(None)),
        Withdrawal::ReadBalance { request, balance: search(0) }
    );
}

#[test]
fn withdrawal_that_is_covered_is_queued() {
    let update = |amount: u64| BalanceUpdate { address: address(), amount: word(amount) };
    assert_eq!(withdrawal(50, 49), Withdrawal::Issue(push(BridgeTx::EvmOut(update(49)))));
    assert_eq!(withdrawal(50, 50), Withdrawal::Issue(push(BridgeTx::EvmOut(update(50)))));
    assert_eq!(withdrawal(50, 50).step(WithdrawalEvent::Queued(Ok(()))), Withdrawal::Done(Ok(())));
    assert_eq!(
        withdrawal(50, 50).step(WithdrawalEvent::Queued(Err(QueueError("full".to_string())))),
        Withdrawal::Done(Err(EVMError::QueueError(QueueError("full".to_string()))))
    );
}

#[test]
fn withdrawal_that_is_not_covered_is_refused() {
    let refusal = InsufficientBalance {
        address: address(),
        account_balance: word(50),
        amount: word(51),
    };
    assert_eq!(
        withdrawal(50, 51),
        Withdrawal::Done(Err(EVMError::BackendError(EVMBackendError::InsufficientBalance(
            refusal
        ))))
    );
}

#[test]
fn withdrawal_compares_whole_numbers() {
    let step = service()
        .sub_balance(3, address(), U256([u64::MAX, 0, 0, 0]), hash())
        .step(WithdrawalEvent::Latest(Some(head(6))))
        .step(WithdrawalEvent::Account(AccountEvent::Block(Some(head(6)))));
    let rich = Account { balance: U256([0, 1, 0, 0]), ..account(0, 0) };
    let step = step.step(WithdrawalEvent::Account(AccountEvent::Account(Ok(Some(rich)))));
    assert!(matches!(step, Withdrawal::Issue(_)));
}

#[test]
fn withdrawal_without_a_readable_balance_fails() {
    let step = service()
        .sub_balance(3, address(), word(1), hash())
        .step(WithdrawalEvent::Latest(None))
        .step(WithdrawalEvent::Account(AccountEvent::Block(None)))
        .step(WithdrawalEvent::Account(AccountEvent::Block(None)))
        .step(WithdrawalEvent::Account(AccountEvent::Account(Err(EVMBackendError::Other(
            "gone".to_string(),
        )))));
    assert_eq!(
        step,
        Withdrawal::Done(Err(EVMError::BackendError(EVMBackendError::Other("gone".to_string()))))
    );
}

#[test]
fn next_nonce_of_the_queue_wins() {
    let search = service().get_next_valid_nonce_in_context(3, address());
    assert_eq!(search, NextNonce::AskQueue { context: 3, address: address() });
    assert_eq!(search.step(NextNonceEvent::Queue(Some(word(21)))), NextNonce::Done(word(21)));
}

#[test]
fn next_nonce_falls_back_to_the_state() {
    let search = service()
        .get_next_valid_nonce_in_context(3, address())
        .step(NextNonceEvent::Queue(None))
        .step(NextNonceEvent::Latest(Some(head(6))));
    assert_eq!(
        search,
        NextNonce::ReadNonce(NonceQuery::Account(AccountQuery::FindBlock {
            address: address(),
            block_number: word(6),
        }))
    );
    let search = search
        .step(NextNonceEvent::Account(AccountEvent::Block(Some(head(6)))))
        .step(NextNonceEvent::Account(AccountEvent::Account(Ok(Some(account(0, 17))))));
    assert_eq!(search, NextNonce::Done(word(17)));
}

#[test]
fn next_nonce_is_zero_where_nothing_is_known() {
    let start = || {
        service()
            .get_next_valid_nonce_in_context(3, address())
            .step(NextNonceEvent::Queue(None))
            .step(NextNonceEvent::Latest(None))
            .step(NextNonceEvent::Account(AccountEvent::Block(None)))
            .step(NextNonceEvent::Account(AccountEvent::Block(None)))
    };
    assert_eq!(
        start().step(NextNonceEvent::Account(AccountEvent::Account(Ok(None)))),
        NextNonce::Done(U256([0, 0, 0, 0]))
    );
    assert_eq!(
        start().step(NextNonceEvent::Account(AccountEvent::Account(Err(EVMBackendError::Other(
            "gone".to_string()
        ))))),
        NextNonce::Done(U256([0, 0, 0, 0]))
    );
}

#[test]
fn withdrawal_ignores_what_it_does_not_wait_for() {
    let request =
        TransferRequest { context: 3, address: address(), amount: word(50), hash: hash() };
    let step = service()
        .sub_balance(3, address(), word(50), hash())
        .step(WithdrawalEvent::Queued(Ok(())))
        .step(WithdrawalEvent::Account(AccountEvent::Account(Ok(Some(account(99, 0))))));
    assert_eq!(step, Withdrawal::FindLatest(request));
    let issued = withdrawal(50, 50).step(WithdrawalEvent::Latest(None));
    let update = BalanceUpdate { address: address(), amount: word(50) };
    assert_eq!(issued, Withdrawal::Issue(push(BridgeTx::EvmOut(update))));
}

#[test]
fn directions_of_a_transfer_are_told_apart() {
    let deposit = service().add_balance(3, address(), word(50), hash());
    let update = BalanceUpdate { address: address(), amount: word(50) };
    assert_ne!(deposit, QueueOperation::Issue(push(BridgeTx::EvmOut(update))));
}
