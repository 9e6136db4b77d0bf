//! What the operations come to, and what holds of them whatever the answers are.
use crate::call::{EthCall, EthCallArgs};
use crate::chain::{Account, BackendRequest, BlockHead};
use crate::genesis::{
    GenesisEvent, GenesisPlan, GenesisStart, HeaderFields, LoadedGenesis, StorageWrite,
};
use crate::host::{run, Host, Operation};
use crate::primitives::{H160, MAX_GAS_PER_BLOCK, MIN_GAS_PER_TX, U256};
use crate::queue::{NextNonce, QueueCommand, QueueOperation, TransferRequest, Withdrawal};
use crate::service::EVMCoreService;
use crate::startup::{Restoration, RestorationEvent, VsdbEvent, VsdbSetup};
use crate::state::{
    AccountQuery, BackendEvent, BackendQuery, BalanceQuery, CodeQuery, NonceQuery, StorageQuery,
};
use crate::transaction::{SignedTx, Transaction};
use crate::validation::{Candidate, RawTxValidation};
use vstd::prelude::*;

pub mod accounts;
pub mod calls;
pub mod checks;
pub mod filters;
pub mod start;
pub mod texts;
pub mod transfers;
pub mod values;

verus! {

/// A search for an account ends, after three answers at the most, with the account
/// at the block.
pub proof fn law_get_account<R>(host: Host<R>, address: H160, block_number: U256)
    ensures
        run(AccountQuery::FindBlock { address, block_number }, host, 3) == AccountQuery::Done(
            host.account_at(address, block_number),
        ),
{
    reveal_with_fuel(run, 4);
}

/// A search for a balance ends with the balance of the account at the block.
pub proof fn law_get_balance<R>(host: Host<R>, address: H160, block_number: U256)
    ensures
        run(
            BalanceQuery::Account(AccountQuery::FindBlock { address, block_number }),
            host,
            3,
        ) == BalanceQuery::Done(host.balance_at(address, block_number)),
{
    reveal_with_fuel(run, 4);
}

/// A search for a nonce ends with the nonce of the account at the block.
pub proof fn law_get_nonce<R>(host: Host<R>, address: H160, block_number: U256)
    ensures
        run(NonceQuery::Account(AccountQuery::FindBlock { address, block_number }), host, 3)
            == NonceQuery::Done(host.nonce_at(address, block_number)),
{
    reveal_with_fuel(run, 4);
}

/// A search for code ends with the code of the account at the block.
pub proof fn law_get_code<R>(host: Host<R>, address: H160, block_number: U256)
    ensures
        run(CodeQuery::Account(AccountQuery::FindBlock { address, block_number }), host, 4)
            == CodeQuery::Done(host.code_at(address, block_number)),
{
    reveal_with_fuel(run, 5);
}

/// A search in the storage of an account ends with the word at the position.
pub proof fn law_get_storage_at<R>(
    host: Host<R>,
    address: H160,
    position: U256,
    block_number: U256,
)
    ensures
        run(
            StorageQuery::Account {
                query: AccountQuery::FindBlock { address, block_number },
                address,
                position,
            },
            host,
            4,
        ) == StorageQuery::Done(host.word_at(address, position, block_number)),
{
    reveal_with_fuel(run, 5);
}

/// A search for the latest state ends with what opening gives, the state or the error,
/// for the root of the latest block, or for the root of zeros where there is no block,
/// with nothing set around it.
pub proof fn law_get_latest_block_backend<B, E>(
    latest: Option<BlockHead>,
    opened: spec_fn(BackendRequest) -> Result<B, E>,
)
    ensures
        BackendQuery::<B, E>::FindLatest.after(BackendEvent::Latest(latest)) matches BackendQuery::Open(
            request,
        ) && BackendQuery::<B, E>::Open(request).after(BackendEvent::Opened(opened(request)))
            == BackendQuery::<B, E>::Done(
            opened(crate::state::plain_backend(crate::chain::root_of(latest))),
        ),
{
}

/// An order to the queues ends with what the queues answer to it.
pub proof fn law_queue_operation<R>(host: Host<R>, command: QueueCommand)
    ensures
        run(QueueOperation::Issue(command), host, 1) == QueueOperation::Done(
            crate::queue::with_queue_error((host.queued)(command)),
        ),
{
    reveal_with_fuel(run, 2);
}

/// A transfer out of the EVM ends as the balance at the latest block decides.
pub proof fn law_sub_balance<R>(host: Host<R>, request: TransferRequest)
    ensures
        run(Withdrawal::FindLatest(request), host, 5) == Withdrawal::Done(host.withdrawn(request)),
{
    reveal_with_fuel(run, 6);
}

/// A search for the next valid nonce ends with it.
pub proof fn law_get_next_valid_nonce<R>(host: Host<R>, context: u64, address: H160)
    ensures
        run(NextNonce::AskQueue { context, address }, host, 5) == NextNonce::Done(
            host.valid_nonce(context, address),
        ),
{
    reveal_with_fuel(run, 6);
}

/// A call ends with what its execution in the state of its block comes to.
pub proof fn law_call<'a, R>(host: Host<R>, arguments: EthCallArgs<'a>)
    ensures
        run(EthCall::<'a, R>::FindBlock(arguments), host, 2) == EthCall::<'a, R>::Done(
            host.called(arguments),
        ),
{
    reveal_with_fuel(run, 3);
}

/// The check of a transaction ends, after eleven answers at the most, as its rules
/// decide.
pub proof fn law_validate_raw_tx<R>(
    host: Host<R>,
    transaction: Transaction,
    with_gas_usage: bool,
)
    ensures
        run(RawTxValidation::FindLatest { transaction, with_gas_usage }, host, 11)
            == RawTxValidation::Done(host.validated(transaction, with_gas_usage)),
{
    let start = RawTxValidation::FindLatest { transaction, with_gas_usage };
    lemma_run_in_parts(start, host, 2, 9);
    assert(run(start, host, 2) == start.answered(host).answered(host)) by {
        reveal_with_fuel(run, 3);
    }
    match (host.sender)(transaction.encoded@) {
        Err(_) => {
            lemma_check_stays(host, host.validated(transaction, with_gas_usage), 9);
        },
        Ok(sender) => {
            let candidate = Candidate {
                signed_tx: SignedTx { transaction, sender },
                block_number: host.latest_number(),
                with_gas_usage,
            };
            lemma_nonce_check(host, candidate);
        },
    }
}

/// To answer an operation some times and then again is to answer it so often at once.
proof fn lemma_run_in_parts<R, O: Operation<R>>(operation: O, host: Host<R>, m: nat, n: nat)
    ensures
        run(operation, host, m + n) == run(run(operation, host, m), host, n),
    decreases m,
{
    if m > 0 {
        lemma_run_in_parts(operation.answered(host), host, (m - 1) as nat, n);
    }
}

/// A check that has ended takes no further answer.
proof fn lemma_check_stays<R>(
    host: Host<R>,
    result: Result<(SignedTx, u64), crate::error::RawTxError>,
    answers: nat,
)
    ensures
        run(RawTxValidation::Done(result), host, answers) == RawTxValidation::Done(result),
    decreases answers,
{
    if answers > 0 {
        lemma_check_stays(host, result, (answers - 1) as nat);
    }
}

/// How many answers the search for an account takes.
spec fn search_len<R>(host: Host<R>, block_number: U256) -> nat {
    if (host.block)(block_number) is Some {
        2
    } else {
        3
    }
}

/// A check that waits for the nonce at the latest block ends as the rules decide.
proof fn lemma_nonce_check<R>(host: Host<R>, candidate: Candidate)
    requires
        candidate.block_number == host.latest_number(),
    ensures
        run(
            RawTxValidation::CheckNonce {
                candidate,
                nonce: NonceQuery::Account(candidate.account_search()),
            },
            host,
            9,
        ) == RawTxValidation::Done(host.checked(candidate.signed_tx, candidate.with_gas_usage)),
{
    let start = RawTxValidation::CheckNonce {
        candidate,
        nonce: NonceQuery::Account(candidate.account_search()),
    };
    let taken = search_len(host, candidate.block_number);
    let nonce = host.nonce_at(candidate.signed_tx.sender, candidate.block_number);
    lemma_run_in_parts(start, host, taken, (9 - taken) as nat);
    assert(run(start, host, taken) == candidate.with_nonce(nonce)) by {
        reveal_with_fuel(run, 4);
    }
    if candidate.with_nonce(nonce) is Done {
        lemma_check_stays(
            host,
            host.checked(candidate.signed_tx, candidate.with_gas_usage),
            (9 - taken) as nat,
        );
    } else {
        lemma_balance_check(host, candidate, (9 - taken) as nat);
    }
}

/// A check that waits for the balance at the latest block ends as the rules decide.
proof fn lemma_balance_check<R>(host: Host<R>, candidate: Candidate, answers: nat)
    requires
        candidate.block_number == host.latest_number(),
        candidate.with_nonce(
            host.nonce_at(candidate.signed_tx.sender, candidate.block_number),
        ) is CheckBalance,
        answers >= 6,
    ensures
        run(
            RawTxValidation::CheckBalance {
                candidate,
                query: BalanceQuery::Account(candidate.account_search()),
            },
            host,
            answers,
        ) == RawTxValidation::Done(host.checked(candidate.signed_tx, candidate.with_gas_usage)),
{
    let start = RawTxValidation::CheckBalance {
        candidate,
        query: BalanceQuery::Account(candidate.account_search()),
    };
    let taken = search_len(host, candidate.block_number);
    let rest = (answers - taken) as nat;
    let balance = host.balance_at(candidate.signed_tx.sender, candidate.block_number);
    lemma_run_in_parts(start, host, taken, rest);
    assert(run(start, host, taken) == candidate.with_balance(balance)) by {
        reveal_with_fuel(run, 4);
    }
    let result = host.checked(candidate.signed_tx, candidate.with_gas_usage);
    match balance {
        Err(_) => {
            lemma_check_stays(host, result, rest);
        },
        Ok(balance) => {
            let fees = RawTxValidation::CheckFees { candidate, balance };
            lemma_run_in_parts(fees, host, 3, (rest - 3) as nat);
            assert(run(fees, host, 3) == RawTxValidation::Done(result)) by {
                reveal_with_fuel(run, 4);
            }
            lemma_check_stays(host, result, (rest - 3) as nat);
        },
    }
}

/// Where there is no block with the number asked for, an account is looked up at
/// the latest block; and where the latest block is found by its own number, that is
/// the same as asking for that number.
pub proof fn law_unknown_block_means_latest<R>(host: Host<R>, address: H160, block_number: U256)
    requires
        (host.block)(block_number) is None,
    ensures
        host.root_at(block_number) == crate::chain::root_of(host.latest),
        host.latest is Some && (host.block)(host.latest_number()) == host.latest
            ==> host.account_at(address, block_number) == host.account_at(
            address,
            host.latest_number(),
        ),
{
}

/// A call has no such fallback: where there is no block with the number asked for,
/// it is executed below the root of zeros and at the number zero.
pub proof fn law_unknown_block_call_is_bare<'a, R>(host: Host<R>, arguments: EthCallArgs<'a>)
    requires
        (host.block)(arguments.block_number) is None,
    ensures
        run(EthCall::<'a, R>::FindBlock(arguments), host, 1) matches EthCall::Execute(execution)
            && execution.backend.state_root == crate::primitives::H256::zeros()
            && execution.backend.vicinity.block_number.value() == 0,
{
    reveal_with_fuel(run, 2);
}

/// An account that is not there has no balance, the nonce zero, no code and nothing
/// stored.
pub proof fn law_absent_account<R>(
    host: Host<R>,
    address: H160,
    position: U256,
    block_number: U256,
)
    requires
        host.account_at(address, block_number) == Ok::<Option<Account>, crate::error::EVMError>(
            None,
        ),
    ensures
        host.balance_at(address, block_number) matches Ok(balance) && balance.value() == 0,
        host.nonce_at(address, block_number) matches Ok(nonce) && nonce.value() == 0,
        host.code_at(address, block_number) matches Ok(None),
        host.word_at(address, position, block_number) matches Ok(None),
{
}

/// A nonce that the queue knows is the next valid one, whatever the state says.
pub proof fn law_queued_nonce_wins<R>(host: Host<R>, context: u64, address: H160)
    requires
        (host.next_nonce)(context, address) is Some,
    ensures
        host.valid_nonce(context, address) == (host.next_nonce)(context, address)->Some_0,
        run(NextNonce::AskQueue { context, address }, host, 1) is Done,
{
    reveal_with_fuel(run, 2);
}

/// An account of which neither the queue nor the state knows anything starts with
/// the nonce zero.
pub proof fn law_new_account_starts_at_zero<R>(host: Host<R>, context: u64, address: H160)
    requires
        (host.next_nonce)(context, address) is None,
        host.account_at(address, host.latest_number()) matches Ok(found) ==> found is None,
    ensures
        host.valid_nonce(context, address).value() == 0,
{
}

/// The orders to the queues that a transfer out of the EVM gives while a host
/// answers it.
pub open spec fn orders_given<R>(withdrawal: Withdrawal, host: Host<R>, answers: nat) -> Seq<
    QueueCommand,
>
    decreases answers,
{
    if answers == 0 {
        Seq::empty()
    } else {
        let rest = orders_given(withdrawal.answered(host), host, (answers - 1) as nat);
        match withdrawal {
            Withdrawal::Issue(command) => seq![command] + rest,
            _ => rest,
        }
    }
}

/// A transfer out of the EVM is queued, and once, if the balance covers the amount;
/// if it does not, or cannot be read, nothing is queued.
pub proof fn law_queued_only_if_covered<R>(host: Host<R>, request: TransferRequest)
    ensures
        orders_given(Withdrawal::FindLatest(request), host, 5) == if host.covers(request) {
            seq![request.evm_out()]
        } else {
            Seq::empty()
        },
        !host.covers(request) ==> host.withdrawn(request) is Err,
        host.covers(request) ==> host.withdrawn(request) == crate::queue::with_queue_error(
            (host.queued)(request.evm_out()),
        ),
{
    reveal_with_fuel(orders_given, 6);
    assert(orders_given(Withdrawal::FindLatest(request), host, 5) =~= if host.covers(request) {
        seq![request.evm_out()]
    } else {
        Seq::empty()
    });
}

/// Where a transfer stands after a sequence of answers.
pub open spec fn withdrawal_after(
    withdrawal: Withdrawal,
    events: Seq<crate::queue::WithdrawalEvent>,
) -> Withdrawal
    decreases events.len(),
{
    if events.len() == 0 {
        withdrawal
    } else {
        withdrawal_after(withdrawal, events.drop_last()).after(events.last())
    }
}

/// Whatever the answers are, a transfer never orders anything but itself.
pub proof fn law_withdrawal_orders_only_itself(
    request: TransferRequest,
    events: Seq<crate::queue::WithdrawalEvent>,
)
    ensures
        match withdrawal_after(Withdrawal::FindLatest(request), events) {
            Withdrawal::FindLatest(kept) => kept == request,
            Withdrawal::ReadBalance { request: kept, balance } => kept == request,
            Withdrawal::Issue(command) => command == request.evm_out(),
            Withdrawal::Done(_) => true,
        },
    decreases events.len(),
{
    if events.len() > 0 {
        law_withdrawal_orders_only_itself(request, events.drop_last());
    }
}

/// Deposits and withdrawals of one amount differ in their direction alone.
pub proof fn law_bridge_directions(request: TransferRequest)
    ensures
        request.evm_in() != request.evm_out(),
        request.evm_in() matches QueueCommand::Push { context, tx, hash } && context
            == request.context && hash == request.hash,
        request.evm_out() matches QueueCommand::Push { context, tx, hash } && context
            == request.context && hash == request.hash,
{
}

/// What it takes for a signed transaction to be accepted.
pub open spec fn acceptable<R>(host: Host<R>, signed_tx: SignedTx, with_gas_usage: bool) -> bool {
    let nonce = host.nonce_at(signed_tx.sender, host.latest_number());
    let balance = host.balance_at(signed_tx.sender, host.latest_number());
    &&& nonce is Ok && nonce->Ok_0.value() <= signed_tx.transaction.nonce.value()
    &&& balance is Ok && MIN_GAS_PER_TX <= balance->Ok_0.value()
    &&& (host.prepay_gas)(signed_tx.transaction.encoded@).value() <= balance->Ok_0.value()
    &&& signed_tx.transaction.gas_limit.value() <= MAX_GAS_PER_BLOCK
    &&& with_gas_usage ==> host.measured(signed_tx) is Ok
}

/// A transaction is accepted if and only if its sender is known, its nonce is not
/// used up, its sender can pay, its gas fits into a block and, where the gas is to be
/// measured, it can be executed. It is given back unchanged, with the gas that it
/// used if that was measured and zero if not.
pub proof fn law_accepted_iff_acceptable<R>(
    host: Host<R>,
    transaction: Transaction,
    with_gas_usage: bool,
)
    ensures
        host.validated(transaction, with_gas_usage) is Ok <==> (host.sender)(transaction.encoded@) is Ok
            && acceptable(
            host,
            SignedTx { transaction, sender: (host.sender)(transaction.encoded@)->Ok_0 },
            with_gas_usage,
        ),
        host.validated(transaction, with_gas_usage) matches Ok((signed_tx, used_gas)) ==> {
            &&& signed_tx == SignedTx { transaction, sender: (host.sender)(transaction.encoded@)->Ok_0 }
            &&& used_gas == if with_gas_usage {
                host.measured(signed_tx)->Ok_0.used_gas
            } else {
                0
            }
        },
{
}

/// Where a check stands after a sequence of answers.
pub open spec fn validation_after<R>(
    validation: RawTxValidation,
    events: Seq<crate::validation::RawTxEvent<R>>,
) -> RawTxValidation
    decreases events.len(),
{
    if events.len() == 0 {
        validation
    } else {
        validation_after(validation, events.drop_last()).after(events.last())
    }
}

/// Whether a check is one of this transaction that has kept to its rules.
pub open spec fn keeps_to(
    validation: RawTxValidation,
    transaction: Transaction,
    with_gas_usage: bool,
) -> bool {
    match validation {
        RawTxValidation::FindLatest { transaction: kept, with_gas_usage: asked } => {
            kept == transaction && asked == with_gas_usage
        },
        RawTxValidation::RecoverSender { transaction: kept, with_gas_usage: asked, block_number } =>
        {
            kept == transaction && asked == with_gas_usage
        },
        RawTxValidation::CheckNonce { candidate, nonce } => {
            candidate.signed_tx.transaction == transaction && candidate.with_gas_usage
                == with_gas_usage
        },
        RawTxValidation::CheckBalance { candidate, query } => {
            candidate.signed_tx.transaction == transaction && candidate.with_gas_usage
                == with_gas_usage
        },
        RawTxValidation::CheckFees { candidate, balance } => {
            candidate.signed_tx.transaction == transaction && candidate.with_gas_usage
                == with_gas_usage
        },
        RawTxValidation::FindCallBlock { candidate, gas_limit } => {
            &&& candidate.signed_tx.transaction == transaction
            &&& with_gas_usage
            &&& gas_limit == transaction.gas_limit.value()
            &&& gas_limit <= MAX_GAS_PER_BLOCK
        },
        RawTxValidation::MeasureGas { candidate, gas_limit, found } => {
            &&& candidate.signed_tx.transaction == transaction
            &&& with_gas_usage
            &&& gas_limit == transaction.gas_limit.value()
            &&& gas_limit <= MAX_GAS_PER_BLOCK
        },
        RawTxValidation::Done(Ok((signed_tx, used_gas))) => {
            &&& signed_tx.transaction == transaction
            &&& transaction.gas_limit.value() <= MAX_GAS_PER_BLOCK
            &&& !with_gas_usage ==> used_gas == 0
        },
        RawTxValidation::Done(Err(_)) => true,
    }
}

/// Whatever the answers are, a check never changes its transaction, executes it only
/// where the gas is to be measured and with a gas limit that fits into a block, and
/// accepts it only with such a limit.
pub proof fn law_validation_keeps_to_rules<R>(
    transaction: Transaction,
    with_gas_usage: bool,
    events: Seq<crate::validation::RawTxEvent<R>>,
)
    ensures
        keeps_to(
            validation_after(RawTxValidation::FindLatest { transaction, with_gas_usage }, events),
            transaction,
            with_gas_usage,
        ),
    decreases events.len(),
{
    if events.len() > 0 {
        law_validation_keeps_to_rules(transaction, with_gas_usage, events.drop_last());
    }
}

/// The key of a storage slot stands for its position, so that different positions
/// have different keys.
pub proof fn law_slot_keys(a: U256, b: U256)
    ensures
        crate::primitives::big_endian_value(crate::state::slot_key(a)@) == a.value(),
        a != b ==> crate::state::slot_key(a) != crate::state::slot_key(b),
{
    lemma_slot_key(a);
    lemma_slot_key(b);
    if a.value() == b.value() {
        crate::primitives::law_value_determines_limbs(a, b);
    }
}

proof fn lemma_slot_key(position: U256)
    ensures
        crate::primitives::big_endian_value(crate::state::slot_key(position)@) == position.value(),
{
    crate::primitives::law_value_fits_32_bytes(position);
    crate::primitives::law_big_endian_bytes_value(position.value(), 32);
    assert(crate::state::slot_key(position)@ =~= crate::primitives::big_endian_bytes(
        position.value(),
        32,
    ));
}

/// The reason for which a text is refused as hexadecimal is the only one, and a text
/// that is read is refused for none.
pub proof fn law_hex_refusal_is_unique(
    text: Seq<u8>,
    a: crate::outside::hex_text::HexError,
    b: crate::outside::hex_text::HexError,
)
    requires
        crate::outside::hex_text::hex_rejects(text, a),
        crate::outside::hex_text::hex_rejects(text, b),
    ensures
        a == b,
        !crate::outside::hex_text::is_hex(text),
{
    match (a, b) {
        (
            crate::outside::hex_text::HexError::InvalidHexCharacter { c, index },
            crate::outside::hex_text::HexError::InvalidHexCharacter { c: d, index: other },
        ) => {
            if index < other {
                assert(text.take(other as int)[index as int] == text[index as int]);
            } else if other < index {
                assert(text.take(index as int)[other as int] == text[other as int]);
            }
        },
        _ => {},
    }
}

/// The directory `evm` is made if and only if it is not there, and the state database
/// is based on `.vsdb` below it either way.
pub proof fn law_vsdb_directory(
    datadir: String,
    present: bool,
    checked: VsdbSetup,
    told: VsdbSetup,
    made: VsdbSetup,
)
    requires
        VsdbSetup::GetDatadir.leads_to(VsdbEvent::Datadir(datadir), checked),
        checked.leads_to(VsdbEvent::Exists(present), told),
        if present {
            made == told
        } else {
            told.leads_to(VsdbEvent::Created, made)
        },
    ensures
        told matches VsdbSetup::CreateDir(dir) ==> !present && dir@ == seq![datadir@, "evm"@],
        !present ==> told is CreateDir,
        made matches VsdbSetup::SetBaseDir(base) && base@ == seq![datadir@, "evm"@, ".vsdb"@],
{
    assert(seq![datadir@, "evm"@].push(".vsdb"@) =~= seq![datadir@, "evm"@, ".vsdb"@]);
}

/// Whether the restoration of a service went through these states by these answers.
pub open spec fn restoration_trace<Q, T, S>(
    states: Seq<Restoration<Q, T, S>>,
    events: Seq<RestorationEvent<Q, T>>,
    storage: S,
) -> bool {
    &&& states.len() == events.len() + 1
    &&& states[0] == (Restoration::<Q, T, S>::Vsdb { setup: VsdbSetup::GetDatadir, storage })
    &&& forall|i: int|
        #![trigger events[i]]
        0 <= i < events.len() ==> states[i].leads_to(events[i], states[i + 1])
}

/// Whatever the answers are, a service that is restored has the storage that was
/// given, and its stores were opened only after the state database knew its
/// directory.
pub proof fn law_restored_service<Q, T, S>(
    states: Seq<Restoration<Q, T, S>>,
    events: Seq<RestorationEvent<Q, T>>,
    storage: S,
    i: int,
)
    requires
        restoration_trace(states, events, storage),
        0 <= i < states.len(),
    ensures
        match states[i] {
            Restoration::Vsdb { setup, storage: kept } => kept == storage && setup !is Done,
            Restoration::OpenStores { storage: kept } => kept == storage,
            Restoration::Done(service) => service.storage == storage && exists|j: int|
                0 <= j < i && states[j] is OpenStores,
        },
        states[i] is OpenStores ==> exists|j: int|
            0 <= j < i && (#[trigger] states[j] matches Restoration::Vsdb { setup, storage: kept }
                && setup is SetBaseDir),
    decreases i,
{
    if i > 0 {
        law_restored_service(states, events, storage, i - 1);
        assert(states[i - 1].leads_to(events[i - 1], states[i - 1 + 1]));
    }
}

/// The answers that the setup of the state database's directory waits for.
pub open spec fn setup_answers(datadir: String, present: bool) -> Seq<VsdbEvent> {
    if present {
        seq![VsdbEvent::Datadir(datadir), VsdbEvent::Exists(true), VsdbEvent::BaseDirSet]
    } else {
        seq![
            VsdbEvent::Datadir(datadir),
            VsdbEvent::Exists(false),
            VsdbEvent::Created,
            VsdbEvent::BaseDirSet,
        ]
    }
}

/// A restoration that is given the answers it waits for ends with the service over the
/// storage that was given and over the stores that were opened. Before that, `.vsdb`
/// below `evm` below the data directory became the base of the state database.
pub proof fn law_restore<Q, T, S>(
    states: Seq<Restoration<Q, T, S>>,
    storage: S,
    datadir: String,
    present: bool,
    tx_queues: Q,
    trie_store: T,
)
    requires
        restoration_trace(
            states,
            setup_answers(datadir, present).map_values(
                |e: VsdbEvent| RestorationEvent::<Q, T>::Vsdb(e),
            ).push(RestorationEvent::Stores { tx_queues, trie_store }),
            storage,
        ),
    ensures
        states.last() == Restoration::Done(EVMCoreService { tx_queues, trie_store, storage }),
        states[states.len() - 3] matches Restoration::Vsdb { setup, storage: kept } && setup
            matches VsdbSetup::SetBaseDir(base) && base@ == seq![datadir@, "evm"@, ".vsdb"@],
{
    let events = setup_answers(datadir, present).map_values(
        |e: VsdbEvent| RestorationEvent::<Q, T>::Vsdb(e),
    ).push(RestorationEvent::Stores { tx_queues, trie_store });
    assert(states[0].leads_to(events[0], states[1]));
    assert(states[1].leads_to(events[1], states[2]));
    assert(states[2].leads_to(events[2], states[3]));
    assert(states[3].leads_to(events[3], states[4]));
    if !present {
        assert(states[4].leads_to(events[4], states[5]));
    }
    assert(seq![datadir@, "evm"@].push(".vsdb"@) =~= seq![datadir@, "evm"@, ".vsdb"@]);
}

/// Whether the start of a chain went through these states by these answers.
pub open spec fn genesis_trace<Q, T, S, P>(
    states: Seq<GenesisStart<Q, T, S, P>>,
    events: Seq<GenesisEvent<Q, T>>,
    storage: S,
    path: P,
) -> bool {
    &&& states.len() == events.len() + 1
    &&& states[0] == (GenesisStart::<Q, T, S, P>::Vsdb {
        setup: VsdbSetup::GetDatadir,
        storage,
        path,
    })
    &&& forall|i: int|
        #![trigger events[i]]
        0 <= i < events.len() ==> states[i].leads_to(events[i], states[i + 1])
}

/// Whether a plan is the one for a genesis description that was read.
pub open spec fn is_plan_for(plan: GenesisPlan, loaded: LoadedGenesis) -> bool {
    let block = crate::genesis::completed(loaded.header());
    plan.block@ == block && plan.writes@ == crate::genesis::genesis_writes(
        block,
        loaded.initial_base_fee,
    )
}

/// Whatever the answers are, a service at the start of a chain has the storage that
/// was given, and it is there only after a plan was handed out; the plan is the one for
/// a description that was read from the path that was given.
pub proof fn law_started_service<Q, T, S, P>(
    states: Seq<GenesisStart<Q, T, S, P>>,
    events: Seq<GenesisEvent<Q, T>>,
    storage: S,
    path: P,
    i: int,
)
    requires
        genesis_trace(states, events, storage, path),
        0 <= i < states.len(),
    ensures
        match states[i] {
            GenesisStart::Vsdb { setup, storage: kept, path: way } => kept == storage && way == path,
            GenesisStart::OpenStores { storage: kept, path: way } => kept == storage && way == path,
            GenesisStart::Load { service, path: way } => service.storage == storage && way == path,
            GenesisStart::Write { service, plan } => service.storage == storage && exists|k: int|
                0 <= k < i && (#[trigger] events[k] matches GenesisEvent::Loaded(loaded)
                    && is_plan_for(plan, loaded)),
            GenesisStart::Done(service) => service.storage == storage && exists|j: int|
                0 <= j < i && (#[trigger] states[j] matches GenesisStart::Write {
                    service: kept,
                    plan,
                } && kept == service),
        },
    decreases i,
{
    if i > 0 {
        law_started_service(states, events, storage, path, i - 1);
        assert(states[i - 1].leads_to(events[i - 1], states[i - 1 + 1]));
        if states[i] is Write {
            if states[i - 1] is Load {
                assert(events[i - 1] is Loaded);
            } else {
                assert(states[i - 1] == states[i]);
            }
        }
    }
}

/// A start that is given the answers it waits for ends with the service over the
/// storage that was given and over the stores that were opened. Before that, the plan
/// for the description that was read was handed out to be written.
pub proof fn law_new_from_json<Q, T, S, P>(
    states: Seq<GenesisStart<Q, T, S, P>>,
    storage: S,
    path: P,
    datadir: String,
    present: bool,
    tx_queues: Q,
    trie_store: T,
    loaded: LoadedGenesis,
)
    requires
        genesis_trace(
            states,
            setup_answers(datadir, present).map_values(
                |e: VsdbEvent| GenesisEvent::<Q, T>::Vsdb(e),
            ).push(GenesisEvent::Stores { tx_queues, trie_store }).push(
                GenesisEvent::Loaded(loaded),
            ).push(GenesisEvent::Written),
            storage,
            path,
        ),
    ensures
        states.last() == GenesisStart::<Q, T, S, P>::Done(
            EVMCoreService { tx_queues, trie_store, storage },
        ),
        states[states.len() - 2] matches GenesisStart::Write { service, plan } && is_plan_for(
            plan,
            loaded,
        ),
        states[states.len() - 5] matches GenesisStart::Vsdb { setup, storage: kept, path: way }
            && setup matches VsdbSetup::SetBaseDir(base) && base@ == seq![
            datadir@,
            "evm"@,
            ".vsdb"@,
        ],
{
    let events = setup_answers(datadir, present).map_values(
        |e: VsdbEvent| GenesisEvent::<Q, T>::Vsdb(e),
    ).push(GenesisEvent::Stores { tx_queues, trie_store }).push(
        GenesisEvent::Loaded(loaded),
    ).push(GenesisEvent::Written);
    assert(states[0].leads_to(events[0], states[1]));
    assert(states[1].leads_to(events[1], states[2]));
    assert(states[2].leads_to(events[2], states[3]));
    assert(states[3].leads_to(events[3], states[4]));
    assert(states[4].leads_to(events[4], states[5]));
    assert(states[5].leads_to(events[5], states[6]));
    if !present {
        assert(states[6].leads_to(events[6], states[7]));
    }
    assert(seq![datadir@, "evm"@].push(".vsdb"@) =~= seq![datadir@, "evm"@, ".vsdb"@]);
}

/// The first block of a chain has the number zero and the state that was set up, and
/// a block's whole gas where the description names no limit.
pub proof fn law_genesis_block(loaded: LoadedGenesis)
    ensures
        crate::genesis::completed(loaded.header()).partial.number.value() == 0,
        crate::genesis::completed(loaded.header()).partial.state_root == loaded.state_root,
        loaded.data.gas_limit is None ==> crate::genesis::completed(
            loaded.header(),
        ).partial.gas_limit.value() == MAX_GAS_PER_BLOCK,
        loaded.data.gas_limit matches Some(limit) ==> crate::genesis::completed(
            loaded.header(),
        ).partial.gas_limit == limit,
{
    assert(U256([MAX_GAS_PER_BLOCK, 0, 0, 0]).value() == MAX_GAS_PER_BLOCK);
}

/// The base fee is stored last, under the hash of the block that became the latest
/// one.
pub proof fn law_genesis_writes(block: HeaderFields, base_fee: U256)
    ensures
        ({
            let writes = crate::genesis::genesis_writes(block, base_fee);
            &&& writes.len() == 3
            &&& writes[0] == StorageWrite::PutLatestBlock
            &&& writes[1] == StorageWrite::PutBlock
            &&& writes[2] matches StorageWrite::SetBaseFee { block_hash, base_fee: fee }
            &&& block_hash.0 == crate::outside::headers::header_hash(block)
            &&& fee == base_fee
        }),
{
}

} // verus!
