//! The transaction queues: transfers from and to the native chain, and nonces.
use crate::chain::{block_number_of, BlockHead};
use crate::error::{EVMBackendError, EVMError, InsufficientBalance, QueueError};
use crate::host::Host;
use crate::primitives::{NativeTxHash, H160, U256};
use crate::service::EVMCoreService;
use crate::state::{AccountEvent, AccountQuery, BalanceQuery, NonceQuery};
use crate::transaction::{BalanceUpdate, BridgeTx, QueueTx};
use vstd::prelude::*;

verus! {

/// An order to the transaction queues. Each queue is known by its context.
#[derive(Clone, Copy, Debug, PartialEq, Eq)]
pub enum QueueCommand {
    /// Open a queue and tell its context.
    NewContext,
    /// Put a transaction behind those of the queue.
    Push { context: u64, tx: QueueTx, hash: NativeTxHash },
    /// Empty the queue.
    Clear { context: u64 },
    /// Drop the queue.
    Remove { context: u64 },
    /// Take all transactions of a sender out of the queue.
    RemoveBySender { context: u64, address: H160 },
}

/// An order to the queues that may fail.
#[derive(Debug, PartialEq, Eq)]
pub enum QueueOperation {
    /// Waits for the order to be carried out.
    Issue(QueueCommand),
    /// The operation has ended.
    Done(Result<(), EVMError>),
}

/// The result of an operation that gives a queue error on.
pub open spec fn with_queue_error(r: Result<(), QueueError>) -> Result<(), EVMError> {
    match r {
        Ok(_) => Ok(()),
        Err(e) => Err(EVMError::QueueError(e)),
    }
}

/// Computes [`with_queue_error`].
fn queue_result(reply: Result<(), QueueError>) -> (r: Result<(), EVMError>)
    ensures
        r == with_queue_error(reply),
{
    match reply {
        Ok(_) => Ok(()),
        Err(e) => Err(EVMError::from(e)),
    }
}

impl QueueOperation {
    /// Where the operation stands after the queues' answer.
    pub open spec fn after(self, reply: Result<(), QueueError>) -> Self {
        match self {
            QueueOperation::Issue(_) => QueueOperation::Done(with_queue_error(reply)),
            QueueOperation::Done(_) => self,
        }
    }

    /// Takes the queues' answer.
    pub fn step(self, reply: Result<(), QueueError>) -> (r: Self)
        ensures
            r == self.after(reply),
    {
        match self {
            QueueOperation::Issue(_) => QueueOperation::Done(queue_result(reply)),
            done => done,
        }
    }
}

/// An order to the queues that is answered with a context.
#[derive(Clone, Copy, Debug, PartialEq, Eq)]
pub enum ContextOperation {
    /// Waits for the order to be carried out.
    Issue(QueueCommand),
    /// The operation has ended.
    Done(u64),
}

impl ContextOperation {
    /// Where the operation stands after the queues' answer, which is the result as it
    /// is.
    pub open spec fn after(self, context: u64) -> Self {
        match self {
            ContextOperation::Issue(_) => ContextOperation::Done(context),
            ContextOperation::Done(_) => self,
        }
    }

    /// Takes the queues' answer.
    pub fn step(self, context: u64) -> (r: Self)
        ensures
            r == self.after(context),
    {
        match self {
            ContextOperation::Issue(_) => ContextOperation::Done(context),
            done => done,
        }
    }
}

/// Begins an order to the queues.
fn ordered(command: QueueCommand) -> (r: QueueOperation)
    ensures
        r == QueueOperation::Issue(command),
        forall|host: Host<()>| #[trigger]
            crate::host::run(r, host, 1) == QueueOperation::Done(
                with_queue_error((host.queued)(command)),
            ),
{
    let operation = QueueOperation::Issue(command);
    proof {
        assert forall|host: Host<()>| #[trigger]
            crate::host::run(operation, host, 1) == QueueOperation::Done(
                with_queue_error((host.queued)(command)),
            ) by {
            crate::laws::law_queue_operation(host, command);
        }
    }
    operation
}

/// What is to be moved, and into which queue the transfer goes.
#[derive(Clone, Copy, Debug, PartialEq, Eq)]
pub struct TransferRequest {
    pub context: u64,
    pub address: H160,
    pub amount: U256,
    pub hash: NativeTxHash,
}

impl TransferRequest {
    /// The order that queues the transfer into the EVM.
    pub open spec fn evm_in(self) -> QueueCommand {
        QueueCommand::Push {
            context: self.context,
            tx: QueueTx::BridgeTx(
                BridgeTx::EvmIn(BalanceUpdate { address: self.address, amount: self.amount }),
            ),
            hash: self.hash,
        }
    }

    /// The order that queues the transfer out of the EVM.
    pub open spec fn evm_out(self) -> QueueCommand {
        QueueCommand::Push {
            context: self.context,
            tx: QueueTx::BridgeTx(
                BridgeTx::EvmOut(BalanceUpdate { address: self.address, amount: self.amount }),
            ),
            hash: self.hash,
        }
    }
}

/// A transfer out of the EVM on its way.
#[derive(Debug, PartialEq, Eq)]
pub enum Withdrawal {
    /// Waits for the latest block.
    FindLatest(TransferRequest),
    /// Waits for what the search for the balance waits for.
    ReadBalance { request: TransferRequest, balance: BalanceQuery },
    /// Waits for the order to be carried out.
    Issue(QueueCommand),
    /// The transfer is queued or refused.
    Done(Result<(), EVMError>),
}

/// An answer that a [`Withdrawal`] waits for.
#[derive(Debug, PartialEq, Eq)]
pub enum WithdrawalEvent {
    Latest(Option<BlockHead>),
    Account(AccountEvent),
    Queued(Result<(), QueueError>),
}

/// The refusal of a transfer that the balance does not cover.
pub open spec fn not_covered(request: TransferRequest, balance: U256) -> EVMError {
    EVMError::BackendError(
        EVMBackendError::InsufficientBalance(
            InsufficientBalance {
                address: request.address,
                account_balance: balance,
                amount: request.amount,
            },
        ),
    )
}

impl Withdrawal {
    /// The transfer, given the search for the balance: it is queued where the
    /// balance covers the amount, and refused where it does not.
    pub open spec fn of(request: TransferRequest, query: BalanceQuery) -> Self {
        match query {
            BalanceQuery::Done(Ok(balance)) => if balance.value() < request.amount.value() {
                Withdrawal::Done(Err(not_covered(request, balance)))
            } else {
                Withdrawal::Issue(request.evm_out())
            },
            BalanceQuery::Done(Err(e)) => Withdrawal::Done(Err(e)),
            _ => Withdrawal::ReadBalance { request, balance: query },
        }
    }

    /// Where the transfer stands after an answer. An answer that it does not
    /// wait for changes nothing.
    pub open spec fn after(self, event: WithdrawalEvent) -> Self {
        match (self, event) {
            (
                Withdrawal::FindLatest(request),
                WithdrawalEvent::Latest(found),
            ) => Withdrawal::ReadBalance {
                request,
                balance: BalanceQuery::Account(
                    AccountQuery::FindBlock {
                        address: request.address,
                        block_number: crate::chain::number_of(found),
                    },
                ),
            },
            (
                Withdrawal::ReadBalance { request, balance },
                WithdrawalEvent::Account(e),
            ) => Withdrawal::of(request, balance.after(e)),
            (
                Withdrawal::Issue(_),
                WithdrawalEvent::Queued(reply),
            ) => Withdrawal::Done(with_queue_error(reply)),
            _ => self,
        }
    }

    /// Takes an answer.
    pub fn step(self, event: WithdrawalEvent) -> (r: Self)
        ensures
            r == self.after(event),
    {
        match (self, event) {
            (Withdrawal::FindLatest(request), WithdrawalEvent::Latest(found)) => {
                let block_number = block_number_of(found);
                Withdrawal::ReadBalance {
                    request,
                    balance: BalanceQuery::Account(
                        AccountQuery::FindBlock { address: request.address, block_number },
                    ),
                }
            },
            (
                Withdrawal::ReadBalance { request, balance },
                WithdrawalEvent::Account(e),
            ) => match balance.step(e) {
                BalanceQuery::Done(Ok(balance)) => {
                    if balance.lt(&request.amount) {
                        let refusal = EVMBackendError::InsufficientBalance(
                            InsufficientBalance {
                                address: request.address,
                                account_balance: balance,
                                amount: request.amount,
                            },
                        );
                        Withdrawal::Done(Err(EVMError::from(refusal)))
                    } else {
                        let update = BalanceUpdate {
                            address: request.address,
                            amount: request.amount,
                        };
                        Withdrawal::Issue(
                            QueueCommand::Push {
                                context: request.context,
                                tx: QueueTx::BridgeTx(BridgeTx::EvmOut(update)),
                                hash: request.hash,
                            },
                        )
                    }
                },
                BalanceQuery::Done(Err(e)) => Withdrawal::Done(Err(e)),
                next => Withdrawal::ReadBalance { request, balance: next },
            },
            (
                Withdrawal::Issue(_),
                WithdrawalEvent::Queued(reply),
            ) => Withdrawal::Done(queue_result(reply)),
            (withdrawal, _) => withdrawal,
        }
    }
}

/// A search for the nonce that the next transaction of an account is to have.
#[derive(Debug, PartialEq, Eq)]
pub enum NextNonce {
    /// Waits for the next nonce that the queue knows for the account.
    AskQueue { context: u64, address: H160 },
    /// Waits for the latest block.
    FindLatest { address: H160 },
    /// Waits for what the search for the account's nonce waits for.
    ReadNonce(NonceQuery),
    /// The search has ended.
    Done(U256),
}

/// An answer that a [`NextNonce`] waits for.
#[derive(Debug, PartialEq, Eq)]
pub enum NextNonceEvent {
    Queue(Option<U256>),
    Latest(Option<BlockHead>),
    Account(AccountEvent),
}

impl NextNonce {
    /// The search, given that for the account's nonce: a nonce that cannot be
    /// read counts as zero.
    pub open spec fn of(query: NonceQuery) -> Self {
        match query {
            NonceQuery::Done(Ok(nonce)) => NextNonce::Done(nonce),
            NonceQuery::Done(Err(_)) => NextNonce::Done(U256::zeros()),
            _ => NextNonce::ReadNonce(query),
        }
    }

    /// Where the search stands after an answer. An answer that it does not wait
    /// for changes nothing.
    pub open spec fn after(self, event: NextNonceEvent) -> Self {
        match (self, event) {
            (
                NextNonce::AskQueue { context, address },
                NextNonceEvent::Queue(Some(nonce)),
            ) => NextNonce::Done(nonce),
            (
                NextNonce::AskQueue { context, address },
                NextNonceEvent::Queue(None),
            ) => NextNonce::FindLatest { address },
            (
                NextNonce::FindLatest { address },
                NextNonceEvent::Latest(found),
            ) => NextNonce::ReadNonce(
                NonceQuery::Account(
                    AccountQuery::FindBlock {
                        address,
                        block_number: crate::chain::number_of(found),
                    },
                ),
            ),
            (NextNonce::ReadNonce(query), NextNonceEvent::Account(e)) => NextNonce::of(
                query.after(e),
            ),
            _ => self,
        }
    }

    /// Takes an answer.
    pub fn step(self, event: NextNonceEvent) -> (r: Self)
        ensures
            r == self.after(event),
    {
        match (self, event) {
            (
                NextNonce::AskQueue { .. },
                NextNonceEvent::Queue(Some(nonce)),
            ) => NextNonce::Done(nonce),
            (
                NextNonce::AskQueue { address, .. },
                NextNonceEvent::Queue(None),
            ) => NextNonce::FindLatest { address },
            (NextNonce::FindLatest { address }, NextNonceEvent::Latest(found)) => {
                let block_number = block_number_of(found);
                NextNonce::ReadNonce(
                    NonceQuery::Account(AccountQuery::FindBlock { address, block_number }),
                )
            },
            (NextNonce::ReadNonce(query), NextNonceEvent::Account(e)) => match query.step(e) {
                NonceQuery::Done(Ok(nonce)) => NextNonce::Done(nonce),
                NonceQuery::Done(Err(_)) => NextNonce::Done(U256::zero()),
                next => NextNonce::ReadNonce(next),
            },
            (search, _) => search,
        }
    }
}

impl<Q, T, S> EVMCoreService<Q, T, S> {
    /// Queues a transfer into the EVM.
    pub fn add_balance(
        &self,
        context: u64,
        address: H160,
        amount: U256,
        hash: NativeTxHash,
    ) -> (r: QueueOperation)
        ensures
            r == QueueOperation::Issue(
                (TransferRequest { context, address, amount, hash }).evm_in(),
            ),
            forall|host: Host<()>| #[trigger]
                crate::host::run(r, host, 1) == QueueOperation::Done(
                    with_queue_error(
                        (host.queued)(
                            (TransferRequest { context, address, amount, hash }).evm_in(),
                        ),
                    ),
                ),
    {
        let update = BalanceUpdate { address, amount };
        ordered(
            QueueCommand::Push { context, tx: QueueTx::BridgeTx(BridgeTx::EvmIn(update)), hash },
        )
    }

    /// Queues a transfer out of the EVM, where the account's balance at the
    /// latest block covers it.
    pub fn sub_balance(
        &self,
        context: u64,
        address: H160,
        amount: U256,
        hash: NativeTxHash,
    ) -> (r: Withdrawal)
        ensures
            r == Withdrawal::FindLatest(TransferRequest { context, address, amount, hash }),
            forall|host: Host<()>| #[trigger]
                crate::host::run(r, host, 5) == Withdrawal::Done(
                    host.withdrawn(TransferRequest { context, address, amount, hash }),
                ),
    {
        let request = TransferRequest { context, address, amount, hash };
        let withdrawal = Withdrawal::FindLatest(request);
        proof {
            assert forall|host: Host<()>| #[trigger]
                crate::host::run(withdrawal, host, 5) == Withdrawal::Done(
                    host.withdrawn(request),
                ) by {
                crate::laws::law_sub_balance(host, request);
            }
        }
        withdrawal
    }

    /// Opens a queue. The context that the queues answer with is the result.
    pub fn get_context(&self) -> (r: ContextOperation)
        ensures
            r == ContextOperation::Issue(QueueCommand::NewContext),
            forall|context: u64| #[trigger] r.after(context) == ContextOperation::Done(context),
    {
        ContextOperation::Issue(QueueCommand::NewContext)
    }

    /// Empties a queue.
    pub fn clear(&self, context: u64) -> (r: QueueOperation)
        ensures
            r == QueueOperation::Issue(QueueCommand::Clear { context }),
            forall|host: Host<()>| #[trigger]
                crate::host::run(r, host, 1) == QueueOperation::Done(
                    with_queue_error((host.queued)(QueueCommand::Clear { context })),
                ),
    {
        ordered(QueueCommand::Clear { context })
    }

    /// Drops a queue. The order has no answer.
    pub fn remove(&self, context: u64) -> (r: QueueCommand)
        ensures
            r == (QueueCommand::Remove { context }),
    {
        QueueCommand::Remove { context }
    }

    /// Takes all transactions of a sender out of a queue.
    pub fn remove_txs_by_sender(&self, context: u64, address: H160) -> (r: QueueOperation)
        ensures
            r == QueueOperation::Issue(QueueCommand::RemoveBySender { context, address }),
            forall|host: Host<()>| #[trigger]
                crate::host::run(r, host, 1) == QueueOperation::Done(
                    with_queue_error((host.queued)(QueueCommand::RemoveBySender { context, address })),
                ),
    {
        ordered(QueueCommand::RemoveBySender { context, address })
    }

    /// Looks for the next valid nonce of an account within a context.
    ///
    /// The queue of the context is asked first. Where it has no transaction of
    /// the account, the nonce is that of the account at the latest block, and
    /// zero where the account is not there or cannot be read.
    pub fn get_next_valid_nonce_in_context(&self, context: u64, address: H160) -> (r: NextNonce)
        ensures
            r == (NextNonce::AskQueue { context, address }),
            forall|host: Host<()>| #[trigger]
                crate::host::run(r, host, 5) == NextNonce::Done(
                    host.valid_nonce(context, address),
                ),
    {
        let search = NextNonce::AskQueue { context, address };
        proof {
            assert forall|host: Host<()>| #[trigger]
                crate::host::run(search, host, 5) == NextNonce::Done(
                    host.valid_nonce(context, address),
                ) by {
                crate::laws::law_get_next_valid_nonce(host, context, address);
            }
        }
        search
    }
}

} // verus!
