//! The check of raw transactions before they are taken into a queue.
use crate::call::{
    execution_at, finish_call, CallEvent, ContextFields, EthCallArgs, Execution, ExecutionFields,
    TxResponse,
};
use crate::chain::{block_number_of, BlockHead};
use crate::error::{CallError, EVMBackendError, EVMError, RawTxError};
use crate::host::Host;
use crate::outside::envelope::decode_transaction;
use crate::outside::hex_text::from_hex;
use crate::primitives::{H160, MAX_GAS_PER_BLOCK, MIN_GAS_PER_TX, U256};
use crate::service::EVMCoreService;
use crate::state::{AccountEvent, AccountQuery, BalanceQuery, NonceQuery};
use crate::transaction::{SignedTx, Transaction};
use vstd::prelude::*;

verus! {

/// What the checks of a signed transaction are made for: the transaction, the
/// block at which its account is looked at, and whether its gas is measured.
#[derive(Debug, PartialEq, Eq)]
pub struct Candidate {
    pub signed_tx: SignedTx,
    pub block_number: U256,
    pub with_gas_usage: bool,
}

/// The check of a raw transaction on its way.
#[derive(Debug, PartialEq, Eq)]
pub enum RawTxValidation {
    /// Waits for the latest block.
    FindLatest { transaction: Transaction, with_gas_usage: bool },
    /// Waits for the account whose signature the encoded transaction bears.
    RecoverSender { transaction: Transaction, block_number: U256, with_gas_usage: bool },
    /// Waits for what the search for the account's nonce waits for.
    CheckNonce { candidate: Candidate, nonce: NonceQuery },
    /// Waits for what the search for the account's balance waits for.
    CheckBalance { candidate: Candidate, query: BalanceQuery },
    /// Waits for the gas that the encoded transaction has its sender pay for in
    /// advance.
    CheckFees { candidate: Candidate, balance: U256 },
    /// Waits for the block with the candidate's number.
    FindCallBlock { candidate: Candidate, gas_limit: u64 },
    /// Waits for the execution that [`RawTxValidation::execution`] orders.
    MeasureGas { candidate: Candidate, gas_limit: u64, found: Option<BlockHead> },
    /// The check has ended, with the gas that the transaction used if that was
    /// measured, and zero if not.
    Done(Result<(SignedTx, u64), RawTxError>),
}

/// An answer that a [`RawTxValidation`] waits for. Why no sender can be told is
/// said by its text.
#[derive(Debug, PartialEq, Eq)]
pub enum RawTxEvent<R> {
    Latest(Option<BlockHead>),
    Sender(Result<H160, String>),
    Account(AccountEvent),
    PrepayGas(U256),
    Call(CallEvent<R>),
}

/// The check of a transaction, where `decoded` is what its bytes were decoded to.
pub open spec fn checked_from(decoded: Option<Transaction>, with_gas_usage: bool) -> RawTxValidation {
    match decoded {
        Some(transaction) => RawTxValidation::FindLatest { transaction, with_gas_usage },
        None => RawTxValidation::Done(Err(RawTxError::Decode)),
    }
}

/// Starts the check of a transaction, where `decoded` is what its bytes were
/// decoded to.
pub fn validate_decoded(decoded: Option<Transaction>, with_gas_usage: bool) -> (r: RawTxValidation)
    ensures
        r == checked_from(decoded, with_gas_usage),
        decoded matches Some(transaction) ==> forall|host: Host<()>| #[trigger]
            crate::host::run(r, host, 11) == RawTxValidation::Done(
                host.validated(transaction, with_gas_usage),
            ),
{
    proof {
        if decoded is Some {
            let transaction = decoded->Some_0;
            assert forall|host: Host<()>| #[trigger]
                crate::host::run(checked_from(decoded, with_gas_usage), host, 11)
                    == RawTxValidation::Done(host.validated(transaction, with_gas_usage)) by {
                crate::laws::law_validate_raw_tx(host, transaction, with_gas_usage);
            }
        }
    }
    match decoded {
        Some(transaction) => RawTxValidation::FindLatest { transaction, with_gas_usage },
        None => RawTxValidation::Done(Err(RawTxError::Decode)),
    }
}

impl Candidate {
    /// The search for the account of the sender.
    pub open spec fn account_search(self) -> AccountQuery {
        AccountQuery::FindBlock { address: self.signed_tx.sender, block_number: self.block_number }
    }

    /// The check after the account's nonce was read: the transaction may not have
    /// a nonce below it.
    pub open spec fn with_nonce(self, nonce: Result<U256, EVMError>) -> RawTxValidation {
        match nonce {
            Err(e) => RawTxValidation::Done(Err(RawTxError::Nonce(e))),
            Ok(account_nonce) => if account_nonce.value()
                > self.signed_tx.transaction.nonce.value() {
                RawTxValidation::Done(
                    Err(
                        RawTxError::InvalidNonce {
                            account_nonce,
                            tx_nonce: self.signed_tx.transaction.nonce,
                        },
                    ),
                )
            } else {
                RawTxValidation::CheckBalance {
                    candidate: self,
                    query: BalanceQuery::Account(self.account_search()),
                }
            },
        }
    }

    /// The check after the account's balance was read.
    pub open spec fn with_balance(self, balance: Result<U256, EVMError>) -> RawTxValidation {
        match balance {
            Err(e) => RawTxValidation::Done(Err(RawTxError::Balance(e))),
            Ok(balance) => RawTxValidation::CheckFees { candidate: self, balance },
        }
    }

    /// The check after the gas to pay in advance is known: the balance has to
    /// cover that and the least gas of any transaction, and the gas limit has to
    /// fit into a block.
    pub open spec fn with_fees(self, balance: U256, prepay_gas: U256) -> RawTxValidation {
        if balance.value() < MIN_GAS_PER_TX || balance.value() < prepay_gas.value() {
            RawTxValidation::Done(Err(RawTxError::InsufficientFunds))
        } else if self.signed_tx.transaction.gas_limit.value() > MAX_GAS_PER_BLOCK {
            RawTxValidation::Done(Err(RawTxError::GasLimit))
        } else if self.with_gas_usage {
            RawTxValidation::FindCallBlock {
                candidate: self,
                gas_limit: self.signed_tx.transaction.gas_limit.value() as u64,
            }
        } else {
            RawTxValidation::Done(Ok((self.signed_tx, 0)))
        }
    }

    /// The check after the transaction was executed, or could not be.
    pub open spec fn with_execution<R>(
        self,
        reply: Result<TxResponse<R>, EVMBackendError>,
    ) -> RawTxValidation {
        match reply {
            Err(e) => RawTxValidation::Done(Err(RawTxError::Call(CallError::Backend(e)))),
            Ok(response) => RawTxValidation::Done(Ok((self.signed_tx, response.used_gas))),
        }
    }

    /// Computes [`Candidate::with_nonce`].
    fn check_nonce(self, nonce: Result<U256, EVMError>) -> (r: RawTxValidation)
        ensures
            r == self.with_nonce(nonce),
    {
        match nonce {
            Err(e) => RawTxValidation::Done(Err(RawTxError::Nonce(e))),
            Ok(account_nonce) => {
                let tx_nonce = self.signed_tx.nonce();
                if tx_nonce.lt(&account_nonce) {
                    RawTxValidation::Done(Err(RawTxError::InvalidNonce { account_nonce, tx_nonce }))
                } else {
                    let search = AccountQuery::FindBlock {
                        address: self.signed_tx.sender,
                        block_number: self.block_number,
                    };
                    RawTxValidation::CheckBalance {
                        candidate: self,
                        query: BalanceQuery::Account(search),
                    }
                }
            },
        }
    }

    /// Computes [`Candidate::with_fees`].
    fn check_fees(self, balance: U256, prepay_gas: U256) -> (r: RawTxValidation)
        ensures
            r == self.with_fees(balance, prepay_gas),
    {
        if balance.lt(&U256::from_u64(MIN_GAS_PER_TX)) || balance.lt(&prepay_gas) {
            return RawTxValidation::Done(Err(RawTxError::InsufficientFunds));
        }
        let gas_limit = self.signed_tx.gas_limit();
        if U256::from_u64(MAX_GAS_PER_BLOCK).lt(&gas_limit) {
            return RawTxValidation::Done(Err(RawTxError::GasLimit));
        }
        if self.with_gas_usage {
            RawTxValidation::FindCallBlock { candidate: self, gas_limit: gas_limit.as_u64() }
        } else {
            RawTxValidation::Done(Ok((self.signed_tx, 0)))
        }
    }
}

/// The execution by which the gas of a signed transaction is measured: a call by
/// its sender with all that the transaction says.
pub open spec fn measurement(
    signed_tx: SignedTx,
    gas_limit: u64,
    found: Option<BlockHead>,
) -> ExecutionFields {
    ExecutionFields {
        backend: crate::call::call_backend(Some(signed_tx.sender), gas_limit, found),
        context: ContextFields {
            caller: signed_tx.sender,
            to: signed_tx.transaction.to,
            value: signed_tx.transaction.value,
            data: signed_tx.transaction.data@,
            gas_limit,
            access_list: crate::transaction::access_entries(signed_tx.transaction.access_list@),
        },
    }
}

impl RawTxValidation {
    /// Where the check stands after an answer. An answer that it does not wait
    /// for changes nothing.
    pub open spec fn after<R>(self, event: RawTxEvent<R>) -> Self {
        match (self, event) {
            (
                RawTxValidation::FindLatest { transaction, with_gas_usage },
                RawTxEvent::Latest(found),
            ) => RawTxValidation::RecoverSender {
                transaction,
                block_number: crate::chain::number_of(found),
                with_gas_usage,
            },
            (
                RawTxValidation::RecoverSender { transaction, block_number, with_gas_usage },
                RawTxEvent::Sender(Ok(sender)),
            ) => {
                let candidate = Candidate {
                    signed_tx: SignedTx { transaction, sender },
                    block_number,
                    with_gas_usage,
                };
                RawTxValidation::CheckNonce {
                    candidate,
                    nonce: NonceQuery::Account(candidate.account_search()),
                }
            },
            (
                RawTxValidation::RecoverSender { transaction, block_number, with_gas_usage },
                RawTxEvent::Sender(Err(text)),
            ) => RawTxValidation::Done(Err(RawTxError::Sender(text))),
            (
                RawTxValidation::CheckNonce { candidate, nonce },
                RawTxEvent::Account(e),
            ) => match nonce.after(e) {
                NonceQuery::Done(r) => candidate.with_nonce(r),
                next => RawTxValidation::CheckNonce { candidate, nonce: next },
            },
            (
                RawTxValidation::CheckBalance { candidate, query },
                RawTxEvent::Account(e),
            ) => match query.after(e) {
                BalanceQuery::Done(r) => candidate.with_balance(r),
                next => RawTxValidation::CheckBalance { candidate, query: next },
            },
            (
                RawTxValidation::CheckFees { candidate, balance },
                RawTxEvent::PrepayGas(prepay_gas),
            ) => candidate.with_fees(balance, prepay_gas),
            (
                RawTxValidation::FindCallBlock { candidate, gas_limit },
                RawTxEvent::Call(CallEvent::Block(found)),
            ) => RawTxValidation::MeasureGas { candidate, gas_limit, found },
            (
                RawTxValidation::MeasureGas { candidate, gas_limit, found },
                RawTxEvent::Call(CallEvent::Executed(reply)),
            ) => candidate.with_execution(reply),
            _ => self,
        }
    }

    /// Takes an answer.
    pub fn step<R>(self, event: RawTxEvent<R>) -> (r: Self)
        ensures
            r == self.after(event),
    {
        match (self, event) {
            (
                RawTxValidation::FindLatest { transaction, with_gas_usage },
                RawTxEvent::Latest(found),
            ) => RawTxValidation::RecoverSender {
                transaction,
                block_number: block_number_of(found),
                with_gas_usage,
            },
            (
                RawTxValidation::RecoverSender { transaction, block_number, with_gas_usage },
                RawTxEvent::Sender(Ok(sender)),
            ) => {
                let search = AccountQuery::FindBlock { address: sender, block_number };
                RawTxValidation::CheckNonce {
                    candidate: Candidate {
                        signed_tx: SignedTx { transaction, sender },
                        block_number,
                        with_gas_usage,
                    },
                    nonce: NonceQuery::Account(search),
                }
            },
            (
                RawTxValidation::RecoverSender { .. },
                RawTxEvent::Sender(Err(text)),
            ) => RawTxValidation::Done(Err(RawTxError::Sender(text))),
            (
                RawTxValidation::CheckNonce { candidate, nonce },
                RawTxEvent::Account(e),
            ) => match nonce.step(e) {
                NonceQuery::Done(r) => candidate.check_nonce(r),
                next => RawTxValidation::CheckNonce { candidate, nonce: next },
            },
            (
                RawTxValidation::CheckBalance { candidate, query },
                RawTxEvent::Account(e),
            ) => match query.step(e) {
                BalanceQuery::Done(Ok(balance)) => RawTxValidation::CheckFees {
                    candidate,
                    balance,
                },
                BalanceQuery::Done(Err(e)) => RawTxValidation::Done(Err(RawTxError::Balance(e))),
                next => RawTxValidation::CheckBalance { candidate, query: next },
            },
            (
                RawTxValidation::CheckFees { candidate, balance },
                RawTxEvent::PrepayGas(prepay_gas),
            ) => candidate.check_fees(balance, prepay_gas),
            (
                RawTxValidation::FindCallBlock { candidate, gas_limit },
                RawTxEvent::Call(CallEvent::Block(found)),
            ) => RawTxValidation::MeasureGas { candidate, gas_limit, found },
            (
                RawTxValidation::MeasureGas { candidate, .. },
                RawTxEvent::Call(CallEvent::Executed(reply)),
            ) => match finish_call(reply) {
                Ok(response) => RawTxValidation::Done(
                    Ok((candidate.signed_tx, response.used_gas)),
                ),
                Err(e) => RawTxValidation::Done(Err(RawTxError::Call(e))),
            },
            (validation, _) => validation,
        }
    }

    /// The execution that a check waits for which measures the gas.
    pub fn execution(&self) -> (r: Option<Execution<'_>>)
        ensures
            match *self {
                RawTxValidation::MeasureGas { candidate, gas_limit, found } => r matches Some(
                    execution,
                ) && execution@ == measurement(candidate.signed_tx, gas_limit, found),
                _ => r is None,
            },
            *self matches RawTxValidation::MeasureGas { candidate, gas_limit, found } ==> {
                &&& r matches Some(execution)
                &&& found matches Some(block) ==> execution.backend.state_root == block.state_root
                    && execution.backend.vicinity.block_number == block.number
                &&& execution.backend.vicinity.origin == candidate.signed_tx.sender
                &&& execution.backend.vicinity.gas_limit.value() == gas_limit
                &&& execution.context.caller == candidate.signed_tx.sender
                &&& execution.context.to == candidate.signed_tx.transaction.to
                &&& execution.context.value == candidate.signed_tx.transaction.value
                &&& execution.context.data@ == candidate.signed_tx.transaction.data@
                &&& execution.context.gas_limit == gas_limit
            },
    {
        match self {
            RawTxValidation::MeasureGas { candidate, gas_limit, found } => {
                let signed_tx = &candidate.signed_tx;
                let arguments = EthCallArgs {
                    caller: Some(signed_tx.sender),
                    to: signed_tx.to(),
                    value: signed_tx.value(),
                    data: signed_tx.data(),
                    gas_limit: *gas_limit,
                    access_list: signed_tx.access_list(),
                    block_number: candidate.block_number,
                };
                Some(execution_at(arguments, *found))
            },
            _ => None,
        }
    }
}

impl<Q, T, S> EVMCoreService<Q, T, S> {
    /// Checks a raw transaction, given as hexadecimal text, against the state of
    /// the latest block.
    pub fn validate_raw_tx(&self, tx: &str, with_gas_usage: bool) -> (r: RawTxValidation)
        ensures
            crate::outside::hex_text::is_hex(vstd::utf8::encode_utf8(tx@)) ==> {
                let bytes = crate::outside::hex_text::digit_pairs(vstd::utf8::encode_utf8(tx@));
                match crate::outside::envelope::decoded_transaction(bytes) {
                    Some(envelope) => r matches RawTxValidation::FindLatest {
                        transaction,
                        with_gas_usage: measured,
                    } && transaction.encoded@ == bytes && transaction@ == envelope.fields() && measured
                        == with_gas_usage && forall|host: Host<()>| #[trigger]
                        crate::host::run(r, host, 11) == RawTxValidation::Done(
                            host.validated(transaction, with_gas_usage),
                        ),
                    None => r == RawTxValidation::Done(Err(RawTxError::Decode)),
                }
            },
            !crate::outside::hex_text::is_hex(vstd::utf8::encode_utf8(tx@)) ==> {
                r matches RawTxValidation::Done(Err(RawTxError::Hex(e)))
                    && crate::outside::hex_text::hex_rejects(vstd::utf8::encode_utf8(tx@), e)
            },
    {
        match from_hex(tx.as_bytes()) {
            Ok(bytes) => validate_decoded(decode_transaction(bytes), with_gas_usage),
            Err(e) => RawTxValidation::Done(Err(RawTxError::Hex(e))),
        }
    }
}

} // verus!
