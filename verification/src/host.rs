//! What the operations come to, run to their end against a host.
//!
//! An operation takes whatever answers it is given. The functions of [`Host`] say what
//! it ends with where a host answers every question in one way, and know nothing of
//! the steps in between.
use crate::call::{CallEvent, EthCall, EthCallArgs, ExecutionFields, TxResponse};
use crate::chain::{Account, BackendRequest, BlockHead};
use crate::error::{CallError, EVMBackendError, EVMError, QueueError, RawTxError};
use crate::primitives::{H160, H256, MAX_GAS_PER_BLOCK, MIN_GAS_PER_TX, U256};
use crate::queue::{
    NextNonce, NextNonceEvent, QueueCommand, QueueOperation, TransferRequest, Withdrawal,
    WithdrawalEvent,
};
use crate::state::{
    AccountEvent, AccountQuery, BalanceQuery, CodeEvent, CodeQuery, NonceQuery, StorageEvent,
    StorageQuery,
};
use crate::transaction::{SignedTx, Transaction};
use crate::validation::{RawTxEvent, RawTxValidation};
use vstd::prelude::*;

verus! {

/// A host that answers each question in one way.
#[verifier::reject_recursive_types(R)]
pub struct Host<R> {
    /// The latest block.
    pub latest: Option<BlockHead>,
    /// The block with a number.
    pub block: spec_fn(U256) -> Option<BlockHead>,
    /// An account in a state.
    pub account: spec_fn(BackendRequest, H160) -> Result<Option<Account>, EVMBackendError>,
    /// The code with a hash.
    pub code: spec_fn(H256) -> Option<Vec<u8>>,
    /// What the storage trie of an account has below a key.
    pub slot: spec_fn(H160, H256, [u8; 32]) -> Result<Option<Vec<u8>>, String>,
    /// Whether an order to the queues is carried out.
    pub queued: spec_fn(QueueCommand) -> Result<(), QueueError>,
    /// The next nonce that a queue knows for an account.
    pub next_nonce: spec_fn(u64, H160) -> Option<U256>,
    /// The account whose signature an encoded transaction bears.
    pub sender: spec_fn(Seq<u8>) -> Result<H160, String>,
    /// The gas that an encoded transaction has its sender pay for in advance.
    pub prepay_gas: spec_fn(Seq<u8>) -> U256,
    /// The result of an execution.
    pub executed: spec_fn(ExecutionFields) -> Result<TxResponse<R>, EVMBackendError>,
}

/// An operation that a host can answer.
pub trait Operation<R>: Sized {
    /// Where the operation stands after the host's answer to what it waits for.
    spec fn answered(self, host: Host<R>) -> Self;
}

/// Where an operation stands after a number of answers.
pub open spec fn run<R, O: Operation<R>>(operation: O, host: Host<R>, answers: nat) -> O
    decreases answers,
{
    if answers == 0 {
        operation
    } else {
        run(operation.answered(host), host, (answers - 1) as nat)
    }
}

impl<R> Host<R> {
    /// The answer to what a search for an account waits for.
    pub open spec fn account_answer(self, query: AccountQuery) -> AccountEvent {
        match query {
            AccountQuery::FindBlock { address, block_number } => AccountEvent::Block(
                (self.block)(block_number),
            ),
            AccountQuery::ReadAccount { backend, address } => AccountEvent::Account(
                (self.account)(backend, address),
            ),
            _ => AccountEvent::Block(self.latest),
        }
    }

    /// The root of the state at a block: that of the block with the number, of the
    /// latest block where there is no such block, and zeros where there is no block
    /// at all.
    pub open spec fn root_at(self, block_number: U256) -> H256 {
        match (self.block)(block_number) {
            Some(block) => block.state_root,
            None => crate::chain::root_of(self.latest),
        }
    }

    /// The account at a block.
    pub open spec fn account_at(self, address: H160, block_number: U256) -> Result<
        Option<Account>,
        EVMError,
    > {
        match (self.account)(crate::state::plain_backend(self.root_at(block_number)), address) {
            Ok(account) => Ok(account),
            Err(e) => Err(EVMError::BackendError(e)),
        }
    }

    /// The balance of an account at a block.
    pub open spec fn balance_at(self, address: H160, block_number: U256) -> Result<U256, EVMError> {
        match self.account_at(address, block_number) {
            Ok(Some(account)) => Ok(account.balance),
            Ok(None) => Ok(U256::zeros()),
            Err(e) => Err(e),
        }
    }

    /// The nonce of an account at a block.
    pub open spec fn nonce_at(self, address: H160, block_number: U256) -> Result<U256, EVMError> {
        match self.account_at(address, block_number) {
            Ok(Some(account)) => Ok(account.nonce),
            Ok(None) => Ok(U256::zeros()),
            Err(e) => Err(e),
        }
    }

    /// The code of an account at a block.
    pub open spec fn code_at(self, address: H160, block_number: U256) -> Result<
        Option<Vec<u8>>,
        EVMError,
    > {
        match self.account_at(address, block_number) {
            Ok(Some(account)) => Ok((self.code)(account.code_hash)),
            Ok(None) => Ok(None),
            Err(e) => Err(e),
        }
    }

    /// The word at a position of an account's storage at a block.
    pub open spec fn word_at(self, address: H160, position: U256, block_number: U256) -> Result<
        Option<Vec<u8>>,
        EVMError,
    > {
        match self.account_at(address, block_number) {
            Ok(Some(account)) => match (self.slot)(
                address,
                account.storage_root,
                crate::state::slot_key(position),
            ) {
                Ok(word) => Ok(word),
                Err(text) => Err(EVMError::TrieError(text)),
            },
            Ok(None) => Ok(None),
            Err(e) => Err(e),
        }
    }

    /// The number of the latest block, or zero where there is none.
    pub open spec fn latest_number(self) -> U256 {
        crate::chain::number_of(self.latest)
    }

    /// What becomes of a transfer out of the EVM.
    pub open spec fn withdrawn(self, request: TransferRequest) -> Result<(), EVMError> {
        match self.balance_at(request.address, self.latest_number()) {
            Ok(balance) => if balance.value() < request.amount.value() {
                Err(crate::queue::not_covered(request, balance))
            } else {
                crate::queue::with_queue_error((self.queued)(request.evm_out()))
            },
            Err(e) => Err(e),
        }
    }

    /// Whether the account's balance at the latest block is known and covers a
    /// transfer out of the EVM.
    pub open spec fn covers(self, request: TransferRequest) -> bool {
        self.balance_at(request.address, self.latest_number()) matches Ok(balance)
            && request.amount.value() <= balance.value()
    }

    /// The next valid nonce of an account within a context.
    pub open spec fn valid_nonce(self, context: u64, address: H160) -> U256 {
        match (self.next_nonce)(context, address) {
            Some(nonce) => nonce,
            None => match self.nonce_at(address, self.latest_number()) {
                Ok(nonce) => nonce,
                Err(_) => U256::zeros(),
            },
        }
    }

    /// What a call comes to.
    pub open spec fn called(self, arguments: EthCallArgs<'_>) -> Result<TxResponse<R>, CallError> {
        let found = (self.block)(arguments.block_number);
        crate::call::call_result(
            (self.executed)(crate::call::execution_of(arguments, found)@),
        )
    }

    /// What the execution comes to by which the gas of a transaction is measured.
    pub open spec fn measured(self, signed_tx: SignedTx) -> Result<
        TxResponse<R>,
        EVMBackendError,
    > {
        (self.executed)(
            crate::validation::measurement(
                signed_tx,
                signed_tx.transaction.gas_limit.value() as u64,
                (self.block)(self.latest_number()),
            ),
        )
    }

    /// What the check of a transaction comes to.
    pub open spec fn validated(self, transaction: Transaction, with_gas_usage: bool) -> Result<
        (SignedTx, u64),
        RawTxError,
    > {
        match (self.sender)(transaction.encoded@) {
            Err(text) => Err(RawTxError::Sender(text)),
            Ok(sender) => self.checked(SignedTx { transaction, sender }, with_gas_usage),
        }
    }

    /// What the check of a signed transaction comes to. The first rule that is
    /// broken decides.
    pub open spec fn checked(self, signed_tx: SignedTx, with_gas_usage: bool) -> Result<
        (SignedTx, u64),
        RawTxError,
    > {
        let tx_nonce = signed_tx.transaction.nonce;
        let nonce = self.nonce_at(signed_tx.sender, self.latest_number());
        let balance = self.balance_at(signed_tx.sender, self.latest_number());
        if nonce is Err {
            Err(RawTxError::Nonce(nonce->Err_0))
        } else if tx_nonce.value() < nonce->Ok_0.value() {
            Err(RawTxError::InvalidNonce { account_nonce: nonce->Ok_0, tx_nonce })
        } else if balance is Err {
            Err(RawTxError::Balance(balance->Err_0))
        } else if balance->Ok_0.value() < MIN_GAS_PER_TX || balance->Ok_0.value() < (
        self.prepay_gas)(signed_tx.transaction.encoded@).value() {
            Err(RawTxError::InsufficientFunds)
        } else if signed_tx.transaction.gas_limit.value() > MAX_GAS_PER_BLOCK {
            Err(RawTxError::GasLimit)
        } else if !with_gas_usage {
            Ok((signed_tx, 0))
        } else {
            match self.measured(signed_tx) {
                Ok(response) => Ok((signed_tx, response.used_gas)),
                Err(e) => Err(RawTxError::Call(CallError::Backend(e))),
            }
        }
    }
}

impl<R> Operation<R> for AccountQuery {
    open spec fn answered(self, host: Host<R>) -> Self {
        match self {
            AccountQuery::Done(_) => self,
            _ => self.after(host.account_answer(self)),
        }
    }
}

impl<R> Operation<R> for BalanceQuery {
    open spec fn answered(self, host: Host<R>) -> Self {
        match self {
            BalanceQuery::Account(query) => self.after(host.account_answer(query)),
            BalanceQuery::Done(_) => self,
        }
    }
}

impl<R> Operation<R> for NonceQuery {
    open spec fn answered(self, host: Host<R>) -> Self {
        match self {
            NonceQuery::Account(query) => self.after(host.account_answer(query)),
            NonceQuery::Done(_) => self,
        }
    }
}

impl<R> Operation<R> for CodeQuery {
    open spec fn answered(self, host: Host<R>) -> Self {
        match self {
            CodeQuery::Account(query) => self.after(CodeEvent::Account(host.account_answer(query))),
            CodeQuery::ReadCode { code_hash } => self.after(
                CodeEvent::Code((host.code)(code_hash)),
            ),
            CodeQuery::Done(_) => self,
        }
    }
}

impl<R> Operation<R> for StorageQuery {
    open spec fn answered(self, host: Host<R>) -> Self {
        match self {
            StorageQuery::Account { query, address, position } => self.after(
                StorageEvent::Account(host.account_answer(query)),
            ),
            StorageQuery::ReadSlot { address, storage_root, key } => self.after(
                StorageEvent::Slot((host.slot)(address, storage_root, key)),
            ),
            StorageQuery::Done(_) => self,
        }
    }
}

impl<R> Operation<R> for QueueOperation {
    open spec fn answered(self, host: Host<R>) -> Self {
        match self {
            QueueOperation::Issue(command) => self.after((host.queued)(command)),
            QueueOperation::Done(_) => self,
        }
    }
}

impl<R> Operation<R> for Withdrawal {
    open spec fn answered(self, host: Host<R>) -> Self {
        match self {
            Withdrawal::FindLatest(_) => self.after(WithdrawalEvent::Latest(host.latest)),
            Withdrawal::ReadBalance { request, balance } => match balance {
                BalanceQuery::Account(query) => self.after(
                    WithdrawalEvent::Account(host.account_answer(query)),
                ),
                BalanceQuery::Done(_) => self,
            },
            Withdrawal::Issue(command) => self.after(
                WithdrawalEvent::Queued((host.queued)(command)),
            ),
            Withdrawal::Done(_) => self,
        }
    }
}

impl<R> Operation<R> for NextNonce {
    open spec fn answered(self, host: Host<R>) -> Self {
        match self {
            NextNonce::AskQueue { context, address } => self.after(
                NextNonceEvent::Queue((host.next_nonce)(context, address)),
            ),
            NextNonce::FindLatest { address } => self.after(NextNonceEvent::Latest(host.latest)),
            NextNonce::ReadNonce(NonceQuery::Account(query)) => self.after(
                NextNonceEvent::Account(host.account_answer(query)),
            ),
            _ => self,
        }
    }
}

impl<'a, R> Operation<R> for EthCall<'a, R> {
    open spec fn answered(self, host: Host<R>) -> Self {
        match self {
            EthCall::FindBlock(arguments) => self.after(
                CallEvent::Block((host.block)(arguments.block_number)),
            ),
            EthCall::Execute(execution) => self.after(
                CallEvent::Executed((host.executed)(execution@)),
            ),
            EthCall::Done(_) => self,
        }
    }
}

impl<R> Operation<R> for RawTxValidation {
    open spec fn answered(self, host: Host<R>) -> Self {
        match self {
            RawTxValidation::FindLatest { transaction, with_gas_usage } => self.after(
                RawTxEvent::<R>::Latest(host.latest),
            ),
            RawTxValidation::RecoverSender { transaction, block_number, with_gas_usage } =>
            self.after(RawTxEvent::<R>::Sender((host.sender)(transaction.encoded@))),
            RawTxValidation::CheckNonce { candidate, nonce } => match nonce {
                NonceQuery::Account(query) => self.after(
                    RawTxEvent::<R>::Account(host.account_answer(query)),
                ),
                NonceQuery::Done(_) => self,
            },
            RawTxValidation::CheckBalance { candidate, query } => match query {
                BalanceQuery::Account(query) => self.after(
                    RawTxEvent::<R>::Account(host.account_answer(query)),
                ),
                BalanceQuery::Done(_) => self,
            },
            RawTxValidation::CheckFees { candidate, balance } => self.after(
                RawTxEvent::<R>::PrepayGas((host.prepay_gas)(candidate.signed_tx.transaction.encoded@)),
            ),
            RawTxValidation::FindCallBlock { candidate, gas_limit } => self.after(
                RawTxEvent::<R>::Call(CallEvent::Block((host.block)(candidate.block_number))),
            ),
            RawTxValidation::MeasureGas { candidate, gas_limit, found } => self.after(
                RawTxEvent::<R>::Call(
                    CallEvent::Executed(
                        (host.executed)(
                            crate::validation::measurement(candidate.signed_tx, gas_limit, found),
                        ),
                    ),
                ),
            ),
            RawTxValidation::Done(_) => self,
        }
    }
}

} // verus!
