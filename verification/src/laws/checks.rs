//! What the check of a raw transaction asks for, accepts and refuses, by the answers
//! that it gets.
use crate::call::{CallEvent, EthCallArgs, Execution, TxResponse};
use crate::chain::{Account, BlockHead};
use crate::error::{CallError, EVMBackendError, EVMError, RawTxError};
use crate::primitives::{H160, U256};
use crate::state::{AccountEvent, AccountQuery, BalanceQuery, NonceQuery};
use crate::transaction::{SignedTx, Transaction};
use crate::validation::{Candidate, RawTxEvent, RawTxValidation};
use vstd::prelude::*;

verus! {

/// The check of what was decoded begins with the transaction as it is, and bytes that
/// encode none are refused at once.
pub proof fn law_check_begins(transaction: Transaction, with_gas_usage: bool)
    ensures
        crate::validation::checked_from(Some(transaction), with_gas_usage)
            == (RawTxValidation::FindLatest { transaction, with_gas_usage }),
        crate::validation::checked_from(None, with_gas_usage) == RawTxValidation::Done(
            Err(RawTxError::Decode),
        ),
{
}

/// The account that signed a transaction is looked at by the number of the latest
/// block, or by zero where there is none. A transaction without a signer is refused
/// with the reason given.
pub proof fn law_sender_by_answers<R>(
    transaction: Transaction,
    with_gas_usage: bool,
    latest: Option<BlockHead>,
    sender: H160,
    text: String,
)
    ensures
        ({
            let asked = (RawTxValidation::FindLatest { transaction, with_gas_usage }).after(
                RawTxEvent::<R>::Latest(latest),
            );
            &&& asked matches RawTxValidation::RecoverSender { transaction: t, block_number, .. }
            &&& t == transaction
            &&& latest matches Some(block) ==> block_number == block.number
            &&& latest is None ==> block_number.value() == 0
            &&& asked.after(RawTxEvent::<R>::Sender(Ok(sender))) == (RawTxValidation::CheckNonce {
                candidate: Candidate {
                    signed_tx: SignedTx { transaction, sender },
                    block_number,
                    with_gas_usage,
                },
                nonce: NonceQuery::Account(
                    AccountQuery::FindBlock { address: sender, block_number },
                ),
            })
            &&& asked.after(RawTxEvent::<R>::Sender(Err(text))) == RawTxValidation::Done(
                Err(RawTxError::Sender(text)),
            )
        }),
{
}

/// The nonce of the sender's account, or zero where there is no account, is compared
/// with that of the transaction, which is refused if and only if it has the smaller
/// number; otherwise the balance of the same account at the same block is looked for.
/// A nonce that cannot be read is refused with the backend's error.
pub proof fn law_nonce_check_by_answers<R>(
    candidate: Candidate,
    block: Option<BlockHead>,
    latest: Option<BlockHead>,
    account: Option<Account>,
    error: EVMBackendError,
)
    ensures
        ({
            let search = AccountQuery::FindBlock {
                address: candidate.signed_tx.sender,
                block_number: candidate.block_number,
            };
            let tx_nonce = candidate.signed_tx.transaction.nonce;
            let used = match account {
                Some(a) => a.nonce.value(),
                None => 0,
            };
            let first = (RawTxValidation::CheckNonce {
                candidate,
                nonce: NonceQuery::Account(search),
            }).after(RawTxEvent::<R>::Account(AccountEvent::Block(block)));
            let asked = if block is Some {
                first
            } else {
                first.after(RawTxEvent::<R>::Account(AccountEvent::Block(latest)))
            };
            let next = asked.after(RawTxEvent::<R>::Account(AccountEvent::Account(Ok(account))));
            &&& block is None ==> first == (RawTxValidation::CheckNonce {
                candidate,
                nonce: NonceQuery::Account(
                    AccountQuery::FindLatest { address: candidate.signed_tx.sender },
                ),
            })
            &&& asked matches RawTxValidation::CheckNonce { candidate: kept, nonce }
            &&& kept == candidate
            &&& nonce matches NonceQuery::Account(query)
            &&& crate::laws::accounts::waits_for_account(
                query,
                candidate.signed_tx.sender,
                block,
                latest,
            )
            &&& tx_nonce.value() >= used ==> next == (RawTxValidation::CheckBalance {
                candidate,
                query: BalanceQuery::Account(search),
            })
            &&& tx_nonce.value() < used ==> {
                &&& next matches RawTxValidation::Done(Err(refusal))
                &&& refusal matches RawTxError::InvalidNonce { account_nonce, tx_nonce: own }
                &&& account_nonce.value() == used && own == tx_nonce
            }
            &&& asked.after(RawTxEvent::<R>::Account(AccountEvent::Account(Err(error))))
                == RawTxValidation::Done(Err(RawTxError::Nonce(EVMError::BackendError(error))))
        }),
{
}

/// The balance that the fees are held against is that of the sender's account, or zero
/// where there is no account. A balance that cannot be read is refused with the
/// backend's error.
pub proof fn law_balance_check_by_answers<R>(
    candidate: Candidate,
    block: Option<BlockHead>,
    latest: Option<BlockHead>,
    account: Option<Account>,
    error: EVMBackendError,
)
    ensures
        ({
            let search = AccountQuery::FindBlock {
                address: candidate.signed_tx.sender,
                block_number: candidate.block_number,
            };
            let first = (RawTxValidation::CheckBalance {
                candidate,
                query: BalanceQuery::Account(search),
            }).after(RawTxEvent::<R>::Account(AccountEvent::Block(block)));
            let asked = if block is Some {
                first
            } else {
                first.after(RawTxEvent::<R>::Account(AccountEvent::Block(latest)))
            };
            let next = asked.after(RawTxEvent::<R>::Account(AccountEvent::Account(Ok(account))));
            &&& block is None ==> first == (RawTxValidation::CheckBalance {
                candidate,
                query: BalanceQuery::Account(
                    AccountQuery::FindLatest { address: candidate.signed_tx.sender },
                ),
            })
            &&& asked matches RawTxValidation::CheckBalance { candidate: kept, query }
            &&& kept == candidate
            &&& query matches BalanceQuery::Account(inner)
            &&& crate::laws::accounts::waits_for_account(
                inner,
                candidate.signed_tx.sender,
                block,
                latest,
            )
            &&& next matches RawTxValidation::CheckFees { candidate: still, balance }
            &&& still == candidate
            &&& account matches Some(a) ==> balance == a.balance
            &&& account is None ==> balance.value() == 0
            &&& asked.after(RawTxEvent::<R>::Account(AccountEvent::Account(Err(error))))
                == RawTxValidation::Done(Err(RawTxError::Balance(EVMError::BackendError(error))))
        }),
{
}

/// The balance has to reach 21,000 and the gas that is paid for in advance; only then
/// is the gas limit looked at, which may be 30,000,000 at the most. A transaction that
/// passes is accepted with no gas where the gas is not to be measured, and executed
/// with its own gas limit where it is.
pub proof fn law_fees_check_by_answers<R>(candidate: Candidate, balance: U256, prepay_gas: U256)
    ensures
        ({
            let next = (RawTxValidation::CheckFees { candidate, balance }).after(
                RawTxEvent::<R>::PrepayGas(prepay_gas),
            );
            let pays = balance.value() >= 21_000 && balance.value() >= prepay_gas.value();
            let fits = candidate.signed_tx.transaction.gas_limit.value() <= 30_000_000;
            &&& !pays ==> next == RawTxValidation::Done(Err(RawTxError::InsufficientFunds))
            &&& pays && !fits ==> next == RawTxValidation::Done(Err(RawTxError::GasLimit))
            &&& pays && fits && !candidate.with_gas_usage ==> next == RawTxValidation::Done(
                Ok((candidate.signed_tx, 0)),
            )
            &&& pays && fits && candidate.with_gas_usage ==> {
                &&& next matches RawTxValidation::FindCallBlock { candidate: kept, gas_limit }
                &&& kept == candidate
                &&& gas_limit == candidate.signed_tx.transaction.gas_limit.value()
            }
        }),
{
}

/// The gas is that of the execution in the state of the block that was found, and the
/// transaction is given back with it as it is. An execution that cannot be made refuses
/// the transaction with the backend's error.
pub proof fn law_gas_by_answers<R>(
    candidate: Candidate,
    gas_limit: u64,
    found: Option<BlockHead>,
    response: TxResponse<R>,
    error: EVMBackendError,
)
    ensures
        ({
            let asked = (RawTxValidation::FindCallBlock { candidate, gas_limit }).after(
                RawTxEvent::<R>::Call(CallEvent::Block(found)),
            );
            &&& asked == (RawTxValidation::MeasureGas { candidate, gas_limit, found })
            &&& asked.after(RawTxEvent::Call(CallEvent::Executed(Ok(response))))
                == RawTxValidation::Done(Ok((candidate.signed_tx, response.used_gas)))
            &&& asked.after(RawTxEvent::<R>::Call(CallEvent::Executed(Err(error))))
                == RawTxValidation::Done(Err(RawTxError::Call(CallError::Backend(error))))
        }),
{
}

/// The execution that measures the gas has all that the transaction says: it calls the
/// account that the transaction calls, and creates a contract where that calls none,
/// with the transaction's value, data and access list, by its sender, in the state of
/// the block that was found.
pub proof fn law_measurement_is_the_transaction<'a>(
    execution: Execution<'a>,
    signed_tx: SignedTx,
    gas_limit: u64,
    found: Option<BlockHead>,
)
    requires
        execution@ == crate::validation::measurement(signed_tx, gas_limit, found),
    ensures
        crate::laws::calls::is_state_of_call(
            execution.backend,
            signed_tx.sender,
            gas_limit as nat,
            found,
        ),
        execution.context.caller == signed_tx.sender,
        execution.context.to == signed_tx.transaction.to,
        execution.context.value == signed_tx.transaction.value,
        execution.context.data@ == signed_tx.transaction.data@,
        execution.context.gas_limit == gas_limit,
        execution.context.access_list@.len() == signed_tx.transaction.access_list@.len(),
        forall|i: int|
            #![trigger execution.context.access_list@[i]]
            0 <= i < signed_tx.transaction.access_list@.len() ==> {
                &&& execution.context.access_list@[i].address
                    == signed_tx.transaction.access_list@[i].address
                &&& execution.context.access_list@[i].storage_keys@
                    == signed_tx.transaction.access_list@[i].storage_keys@
            },
{
    let made = crate::transaction::access_entries(execution.context.access_list@);
    let own = crate::transaction::access_entries(signed_tx.transaction.access_list@);
    crate::laws::values::law_access_entries(execution.context.access_list@);
    crate::laws::values::law_access_entries(signed_tx.transaction.access_list@);
    assert(execution@.context.access_list == own);
    assert(made == own);
    assert forall|i: int|
        #![trigger execution.context.access_list@[i]]
        0 <= i < signed_tx.transaction.access_list@.len() implies {
        &&& execution.context.access_list@[i].address == signed_tx.transaction.access_list@[i].address
        &&& execution.context.access_list@[i].storage_keys@
            == signed_tx.transaction.access_list@[i].storage_keys@
    } by {
        assert(made[i].address == execution.context.access_list@[i].address);
        assert(own[i].address == signed_tx.transaction.access_list@[i].address);
        assert(made[i].storage_keys == execution.context.access_list@[i].storage_keys@);
        assert(own[i].storage_keys == signed_tx.transaction.access_list@[i].storage_keys@);
    }
}

/// To measure the gas of a transaction is to call with what it says: the two order the
/// same execution.
pub proof fn law_measurement_is_a_call<'a>(
    arguments: EthCallArgs<'a>,
    signed_tx: SignedTx,
    found: Option<BlockHead>,
)
    requires
        arguments.caller == Some(signed_tx.sender),
        arguments.to == signed_tx.transaction.to,
        arguments.value == signed_tx.transaction.value,
        arguments.data@ == signed_tx.transaction.data@,
        arguments.access_list == signed_tx.transaction.access_list,
    ensures
        crate::call::execution_of(arguments, found)@ == crate::validation::measurement(
            signed_tx,
            arguments.gas_limit,
            found,
        ),
{
}

/// Whether a check waits for such an answer.
pub open spec fn check_waits<R>(validation: RawTxValidation, event: RawTxEvent<R>) -> bool {
    match event {
        RawTxEvent::Latest(_) => validation is FindLatest,
        RawTxEvent::Sender(_) => validation is RecoverSender,
        RawTxEvent::Account(e) => match validation {
            RawTxValidation::CheckNonce { candidate, nonce: NonceQuery::Account(query) } =>
            crate::laws::accounts::account_waits(query, e),
            RawTxValidation::CheckBalance { candidate, query: BalanceQuery::Account(query) } =>
            crate::laws::accounts::account_waits(query, e),
            _ => false,
        },
        RawTxEvent::PrepayGas(_) => validation is CheckFees,
        RawTxEvent::Call(CallEvent::Block(_)) => validation is FindCallBlock,
        RawTxEvent::Call(CallEvent::Executed(_)) => validation is MeasureGas,
    }
}

/// Whether the searches of a check have not ended, as is so while it asks for accounts.
pub open spec fn check_is_searching(validation: RawTxValidation) -> bool {
    match validation {
        RawTxValidation::CheckNonce { candidate, nonce } => nonce matches NonceQuery::Account(query)
            && query !is Done,
        RawTxValidation::CheckBalance { candidate, query } => query matches BalanceQuery::Account(
            inner,
        ) && inner !is Done,
        _ => true,
    }
}

/// A check takes no notice of an answer that it does not wait for, and keeps its
/// result.
pub proof fn law_check_ignores<R>(validation: RawTxValidation, event: RawTxEvent<R>)
    requires
        !check_waits(validation, event),
        check_is_searching(validation),
    ensures
        validation.after(event) == validation,
{
}

} // verus!
