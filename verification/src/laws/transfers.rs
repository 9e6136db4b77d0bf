//! What the transfers and the other orders to the queues hold, and what they end with.
use crate::chain::{Account, BlockHead};
use crate::error::{EVMBackendError, EVMError, QueueError};
use crate::primitives::{H160, U256};
use crate::queue::{
    ContextOperation, NextNonce, NextNonceEvent, QueueCommand, QueueOperation, TransferRequest,
    Withdrawal, WithdrawalEvent,
};
use crate::startup::{TrieCommand, TrieOperation};
use crate::state::{AccountEvent, AccountQuery, BalanceQuery, NonceQuery};
use crate::transaction::{BridgeTx, QueueTx};
use vstd::prelude::*;

verus! {

/// Whether an order puts the whole amount of a request into the EVM.
pub open spec fn puts_in(command: QueueCommand, request: TransferRequest) -> bool {
    &&& command matches QueueCommand::Push { context, tx, hash }
    &&& context == request.context && hash == request.hash
    &&& tx matches QueueTx::BridgeTx(bridge)
    &&& bridge matches BridgeTx::EvmIn(update)
    &&& update.address == request.address && update.amount == request.amount
}

/// Whether an order takes the whole amount of a request out of the EVM.
pub open spec fn takes_out(command: QueueCommand, request: TransferRequest) -> bool {
    &&& command matches QueueCommand::Push { context, tx, hash }
    &&& context == request.context && hash == request.hash
    &&& tx matches QueueTx::BridgeTx(bridge)
    &&& bridge matches BridgeTx::EvmOut(update)
    &&& update.address == request.address && update.amount == request.amount
}

/// A transfer moves the amount that was asked for, to the last of its 256 bits, to or
/// from the account that was named, in the queue and under the hash that were given.
pub proof fn law_transfers_move_the_amount(request: TransferRequest)
    ensures
        puts_in(request.evm_in(), request),
        takes_out(request.evm_out(), request),
{
}

/// Different requests are different orders, in either direction.
pub proof fn law_transfers_are_told_apart(a: TransferRequest, b: TransferRequest)
    requires
        a != b,
    ensures
        a.evm_in() != b.evm_in(),
        a.evm_out() != b.evm_out(),
{
}

/// A withdrawal asks for the balance of its account by the number of the latest block,
/// or by zero where there is none. It orders the whole amount to be taken out if and
/// only if the account is read and has that much; otherwise it is refused with what the
/// account has and what was asked for, or with the backend's error.
pub proof fn law_withdrawal_by_answers(
    request: TransferRequest,
    newest: Option<BlockHead>,
    block: Option<BlockHead>,
    latest: Option<BlockHead>,
    account: Option<Account>,
    error: EVMBackendError,
)
    ensures
        ({
            let begun = Withdrawal::FindLatest(request).after(WithdrawalEvent::Latest(newest));
            let first = begun.after(WithdrawalEvent::Account(AccountEvent::Block(block)));
            let asked = if block is Some {
                first
            } else {
                first.after(WithdrawalEvent::Account(AccountEvent::Block(latest)))
            };
            let next = asked.after(WithdrawalEvent::Account(AccountEvent::Account(Ok(account))));
            let has = match account {
                Some(a) => a.balance.value(),
                None => 0,
            };
            &&& begun matches Withdrawal::ReadBalance { request: kept, balance }
            &&& kept == request
            &&& balance matches BalanceQuery::Account(search)
            &&& search matches AccountQuery::FindBlock { address, block_number }
            &&& address == request.address
            &&& newest matches Some(b) ==> block_number == b.number
            &&& newest is None ==> block_number.value() == 0
            &&& asked matches Withdrawal::ReadBalance { request: still, balance: looked }
            &&& still == request
            &&& looked matches BalanceQuery::Account(query)
            &&& crate::laws::accounts::waits_for_account(query, request.address, block, latest)
            &&& has >= request.amount.value() ==> {
                &&& next matches Withdrawal::Issue(command)
                &&& takes_out(command, request)
            }
            &&& has < request.amount.value() ==> {
                &&& next matches Withdrawal::Done(Err(EVMError::BackendError(refusal)))
                &&& refusal matches EVMBackendError::InsufficientBalance(short)
                &&& short.address == request.address
                &&& short.account_balance.value() == has
                &&& short.amount == request.amount
            }
            &&& asked.after(WithdrawalEvent::Account(AccountEvent::Account(Err(error))))
                == Withdrawal::Done(Err(EVMError::BackendError(error)))
        }),
{
}

/// An order is given once: it ends with the queues' answer, and an error of theirs is
/// given on.
pub proof fn law_orders_end_with_the_answer(
    command: QueueCommand,
    error: QueueError,
    done: Result<(), EVMError>,
    reply: Result<(), QueueError>,
)
    ensures
        Withdrawal::Issue(command).after(WithdrawalEvent::Queued(Ok(()))) == Withdrawal::Done(
            Ok(()),
        ),
        Withdrawal::Issue(command).after(WithdrawalEvent::Queued(Err(error))) == Withdrawal::Done(
            Err(EVMError::QueueError(error)),
        ),
        QueueOperation::Issue(command).after(Ok(())) == QueueOperation::Done(Ok(())),
        QueueOperation::Issue(command).after(Err(error)) == QueueOperation::Done(
            Err(EVMError::QueueError(error)),
        ),
        QueueOperation::Done(done).after(reply) == QueueOperation::Done(done),
{
}

/// A context is the one that the queues answer with first, and a flush ends with the
/// first answer of the trie store.
pub proof fn law_answers_are_kept<E>(
    command: QueueCommand,
    order: TrieCommand,
    a: u64,
    b: u64,
    first: Result<(), E>,
    second: Result<(), E>,
)
    ensures
        ContextOperation::Issue(command).after(a) == ContextOperation::Done(a),
        ContextOperation::Done(a).after(b) == ContextOperation::Done(a),
        TrieOperation::<E>::Issue(order).after(first) == TrieOperation::<E>::Done(first),
        TrieOperation::<E>::Done(first).after(second) == TrieOperation::<E>::Done(first),
{
}

/// Whether a withdrawal waits for such an answer.
pub open spec fn withdrawal_waits(withdrawal: Withdrawal, event: WithdrawalEvent) -> bool {
    match event {
        WithdrawalEvent::Latest(_) => withdrawal is FindLatest,
        WithdrawalEvent::Account(e) => match withdrawal {
            Withdrawal::ReadBalance { request, balance: BalanceQuery::Account(query) } =>
            crate::laws::accounts::account_waits(query, e),
            _ => false,
        },
        WithdrawalEvent::Queued(_) => withdrawal is Issue,
    }
}

/// A withdrawal takes no notice of an answer that it does not wait for, and keeps its
/// result.
pub proof fn law_withdrawal_ignores(withdrawal: Withdrawal, event: WithdrawalEvent)
    requires
        !withdrawal_waits(withdrawal, event),
        withdrawal matches Withdrawal::ReadBalance { request, balance } ==> balance
            matches BalanceQuery::Account(query) && query !is Done,
    ensures
        withdrawal.after(event) == withdrawal,
{
}

/// A nonce that the queue knows is the next one. Where it knows none, the next one is
/// that of the account by the number of the latest block, or by zero where there is
/// none, and zero where the account is not there or cannot be read.
pub proof fn law_next_nonce_by_answers(
    context: u64,
    address: H160,
    queued: U256,
    newest: Option<BlockHead>,
    block: Option<BlockHead>,
    latest: Option<BlockHead>,
    account: Account,
    error: EVMBackendError,
)
    ensures
        ({
            let start = NextNonce::AskQueue { context, address };
            let begun = start.after(NextNonceEvent::Queue(None)).after(
                NextNonceEvent::Latest(newest),
            );
            let first = begun.after(NextNonceEvent::Account(AccountEvent::Block(block)));
            let asked = if block is Some {
                first
            } else {
                first.after(NextNonceEvent::Account(AccountEvent::Block(latest)))
            };
            let absent = asked.after(NextNonceEvent::Account(AccountEvent::Account(Ok(None))));
            let failed = asked.after(NextNonceEvent::Account(AccountEvent::Account(Err(error))));
            &&& start.after(NextNonceEvent::Queue(Some(queued))) == NextNonce::Done(queued)
            &&& start.after(NextNonceEvent::Queue(None)) == (NextNonce::FindLatest { address })
            &&& begun matches NextNonce::ReadNonce(nonce)
            &&& nonce matches NonceQuery::Account(search)
            &&& search matches AccountQuery::FindBlock { address: owner, block_number }
            &&& owner == address
            &&& newest matches Some(b) ==> block_number == b.number
            &&& newest is None ==> block_number.value() == 0
            &&& asked matches NextNonce::ReadNonce(looked)
            &&& looked matches NonceQuery::Account(query)
            &&& crate::laws::accounts::waits_for_account(query, address, block, latest)
            &&& asked.after(NextNonceEvent::Account(AccountEvent::Account(Ok(Some(account)))))
                == NextNonce::Done(account.nonce)
            &&& absent matches NextNonce::Done(nothing)
            &&& nothing.value() == 0
            &&& failed matches NextNonce::Done(unread)
            &&& unread.value() == 0
        }),
{
}

/// Whether a search for the next nonce waits for such an answer.
pub open spec fn next_nonce_waits(search: NextNonce, event: NextNonceEvent) -> bool {
    match event {
        NextNonceEvent::Queue(_) => search is AskQueue,
        NextNonceEvent::Latest(_) => search is FindLatest,
        NextNonceEvent::Account(e) => match search {
            NextNonce::ReadNonce(NonceQuery::Account(query)) =>
            crate::laws::accounts::account_waits(query, e),
            _ => false,
        },
    }
}

/// A search for the next nonce takes no notice of an answer that it does not wait for,
/// and keeps its result.
pub proof fn law_next_nonce_ignores(search: NextNonce, event: NextNonceEvent)
    requires
        !next_nonce_waits(search, event),
        search matches NextNonce::ReadNonce(nonce) ==> nonce matches NonceQuery::Account(query)
            && query !is Done,
    ensures
        search.after(event) == search,
{
}

} // verus!
