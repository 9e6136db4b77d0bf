use ain_evm::call::{CallEvent, TxResponse};
use ain_evm::chain::{Account, BlockHead};
use ain_evm::error::{CallError, EVMBackendError, EVMError, RawTxError};
use ain_evm::outside::hex_text::HexError;
use ain_evm::primitives::{H160, H256, U256};
use ain_evm::service::EVMCoreService;
use ain_evm::state::AccountEvent;
use ain_evm::transaction::{AccessListItem, SignedTx, Transaction};
use ain_evm::validation::{validate_decoded, RawTxEvent, RawTxValidation};
use ethereum::EnvelopedEncodable;

type Event = RawTxEvent<u8>;

/// The signed transaction of the replay protection proposal: nonce 9, gas limit
/// 21000, one ether to the address of 35s, without data.
const KNOWN: &str = "f86c098504a817c800825208943535353535353535353535353535353535353535880de0b6\
b3a76400008025a028ef61340bd939bc2195fe537567866003e1a15d3c71ff63e1590620aa636276a067cbe9d8997f76\
1aecb703304b3800ccf555c9f3dc64214b297fb1966a3b6d83";

fn service() -> EVMCoreService<(), (), ()> {
    EVMCoreService { tx_queues: (), trie_store: (), storage: () }
}

fn word(number: u64) -> U256 {
    U256::from_u64(number)
}

fn sender() -> H160 {
    H160([7; 20])
}

fn head() -> BlockHead {
    BlockHead { number: word(6), state_root: H256([1; 32]) }
}

fn known() -> Transaction {
    Transaction {
        encoded: hex::decode(KNOWN).unwrap(),
        nonce: word(9),
        gas_limit: word(21_000),
        to: Some(H160([0x35; 20])),
        value: word(1_000_000_000_000_000_000),
        data: vec![],
        access_list: vec![],
    }
}

fn account(balance: U256, nonce: u64) -> Account {
    Account { nonce: word(nonce), balance, storage_root: H256([0; 32]), code_hash: H256([0; 32]) }
}

/// The check of a transaction up to the question for its fees.
fn up_to_fees(transaction: Transaction, measured: bool, balance: U256) -> RawTxValidation {
    validate_decoded(Some(transaction), measured)
        .step(Event::Latest(Some(head())))
        .step(Event::Sender(Ok(sender())))
        .step(Event::Account(AccountEvent::Block(Some(head()))))
        .step(Event::Account(AccountEvent::Account(Ok(Some(account(balance, 9))))))
        .step(Event::Account(AccountEvent::Block(Some(head()))))
        .step(Event::Account(AccountEvent::Account(Ok(Some(account(balance, 9))))))
}

fn error(validation: RawTxValidation) -> RawTxError {
    match validation {
        RawTxValidation::Done(Err(e)) => e,
        _ => panic!("the check is not refused"),
    }
}

#[test]
fn known_transaction_is_decoded() {
    let validation = service().validate_raw_tx(KNOWN, true);
    assert_eq!(
        validation,
        RawTxValidation::FindLatest { transaction: known(), with_gas_usage: true }
    );
    let upper = KNOWN.to_uppercase();
    assert_eq!(service().validate_raw_tx(&upper, true), validation);
}

fn eth_u256(number: u64) -> ethereum_types::U256 {
    ethereum_types::U256::from(number)
}

fn eth_list() -> Vec<ethereum::AccessListItem> {
    vec![
        ethereum::AccessListItem {
            address: ethereum_types::H160([4; 20]),
            storage_keys: vec![ethereum_types::H256([5; 32]), ethereum_types::H256([6; 32])],
        },
        ethereum::AccessListItem {
            address: ethereum_types::H160([8; 20]),
            storage_keys: vec![],
        },
    ]
}

fn list() -> Vec<AccessListItem> {
    vec![
        AccessListItem {
            address: H160([4; 20]),
            storage_keys: vec![H256([5; 32]), H256([6; 32])],
        },
        AccessListItem { address: H160([8; 20]), storage_keys: vec![] },
    ]
}

fn typed(encoded: Vec<u8>, to: Option<H160>) -> RawTxValidation {
    RawTxValidation::FindLatest {
        transaction: Transaction {
            encoded,
            nonce: word(3),
            gas_limit: word(90_000),
            to,
            value: U256([1, 2, 0, 0]),
            data: vec![0xca, 0xfe],
            access_list: list(),
        },
        with_gas_usage: false,
    }
}

#[test]
fn transaction_with_dynamic_fees_is_decoded() {
    let transaction = ethereum::TransactionV2::EIP1559(ethereum::EIP1559Transaction {
        chain_id: 1,
        nonce: eth_u256(3),
        max_priority_fee_per_gas: eth_u256(1),
        max_fee_per_gas: eth_u256(2),
        gas_limit: eth_u256(90_000),
        action: ethereum::TransactionAction::Create,
        value: ethereum_types::U256([1, 2, 0, 0]),
        input: vec![0xca, 0xfe],
        access_list: eth_list(),
        odd_y_parity: true,
        r: ethereum_types::H256([1; 32]),
        s: ethereum_types::H256([2; 32]),
    });
    let encoded = transaction.encode().to_vec();
    let validation = service().validate_raw_tx(&hex::encode(&encoded), false);
    assert_eq!(validation, typed(encoded, None));
}

#[test]
fn transaction_with_an_access_list_is_decoded() {
    let transaction = ethereum::TransactionV2::EIP2930(ethereum::EIP2930Transaction {
        chain_id: 1,
        nonce: eth_u256(3),
        gas_price: eth_u256(1),
        gas_limit: eth_u256(90_000),
        action: ethereum::TransactionAction::Call(ethereum_types::H160([9; 20])),
        value: ethereum_types::U256([1, 2, 0, 0]),
        input: vec![0xca, 0xfe],
        access_list: eth_list(),
        odd_y_parity: false,
        r: ethereum_types::H256([1; 32]),
        s: ethereum_types::H256([2; 32]),
    });
    let encoded = transaction.encode().to_vec();
    let validation = service().validate_raw_tx(&hex::encode(&encoded), false);
    assert_eq!(validation, typed(encoded, Some(H160([9; 20]))));
}

#[test]
fn text_that_is_not_hexadecimal_is_refused() {
    let refused = |text: &str| error(service().validate_raw_tx(text, false));
    assert_eq!(refused("f86"), RawTxError::Hex(HexError::OddLength));
    assert_eq!(
        refused("0xf8"),
        RawTxError::Hex(HexError::InvalidHexCharacter { c: 'x', index: 1 })
    );
    assert_eq!(
        refused("f8gz"),
        RawTxError::Hex(HexError::InvalidHexCharacter { c: 'g', index: 2 })
    );
    // A character outside ASCII is met by its first byte.
    assert_eq!(
        refused("00\u{e9}"),
        RawTxError::Hex(HexError::InvalidHexCharacter { c: '\u{c3}', index: 2 })
    );
    assert_eq!(refused("xyz"), RawTxError::Hex(HexError::OddLength));
}

#[test]
fn bytes_that_encode_no_transaction_are_refused() {
    assert_eq!(error(service().validate_raw_tx("", false)), RawTxError::Decode);
    assert_eq!(error(service().validate_raw_tx("c0", false)), RawTxError::Decode);
    assert_eq!(error(service().validate_raw_tx("05c0", false)), RawTxError::Decode);
    assert_eq!(
        error(service().validate_raw_tx(&KNOWN[..KNOWN.len() - 2], false)),
        RawTxError::Decode
    );
    assert_eq!(error(validate_decoded(None, true)), RawTxError::Decode);
}

#[test]
fn sender_is_asked_for_after_the_latest_block() {
    let validation = validate_decoded(Some(known()), false).step(Event::Latest(None));
    assert_eq!(
        validation,
        RawTxValidation::RecoverSender {
            transaction: known(),
            block_number: word(0),
            with_gas_usage: false,
        }
    );
    let validation = validation.step(Event::Sender(Err("bad signature".to_string())));
    assert_eq!(error(validation), RawTxError::Sender("bad signature".to_string()));
}

#[test]
fn accepted_transaction_without_measurement_used_no_gas() {
    let validation = up_to_fees(known(), false, word(21_000)).step(Event::PrepayGas(word(21_000)));
    assert_eq!(
        validation,
        RawTxValidation::Done(Ok((SignedTx { transaction: known(), sender: sender() }, 0)))
    );
}

#[test]
fn used_nonce_is_refused() {
    let start = || {
        validate_decoded(Some(known()), false)
            .step(Event::Latest(Some(head())))
            .step(Event::Sender(Ok(sender())))
            .step(Event::Account(AccountEvent::Block(Some(head()))))
    };
    let with = |nonce: u64| {
        start().step(Event::Account(AccountEvent::Account(Ok(Some(account(word(1), nonce))))))
    };
    assert_eq!(
        error(with(10)),
        RawTxError::InvalidNonce { account_nonce: word(10), tx_nonce: word(9) }
    );
    assert!(matches!(with(9), RawTxValidation::CheckBalance { .. }));
    assert!(matches!(with(0), RawTxValidation::CheckBalance { .. }));
}

#[test]
fn unreadable_accounts_are_refused() {
    let gone = || EVMBackendError::Other("gone".to_string());
    let start = validate_decoded(Some(known()), false)
        .step(Event::Latest(Some(head())))
        .step(Event::Sender(Ok(sender())))
        .step(Event::Account(AccountEvent::Block(Some(head()))));
    let refused = start.step(Event::Account(AccountEvent::Account(Err(gone()))));
    assert_eq!(error(refused), RawTxError::Nonce(EVMError::BackendError(gone())));
    let start = validate_decoded(Some(known()), false)
        .step(Event::Latest(Some(head())))
        .step(Event::Sender(Ok(sender())))
        .step(Event::Account(AccountEvent::Block(Some(head()))))
        .step(Event::Account(AccountEvent::Account(Ok(None))))
        .step(Event::Account(AccountEvent::Block(Some(head()))));
    let refused = start.step(Event::Account(AccountEvent::Account(Err(gone()))));
    assert_eq!(error(refused), RawTxError::Balance(EVMError::BackendError(gone())));
}

#[test]
fn poor_accounts_are_refused() {
    let poor = |balance: u64, prepay: u64| {
        up_to_fees(known(), false, word(balance)).step(Event::PrepayGas(word(prepay)))
    };
    assert_eq!(error(poor(20_999, 0)), RawTxError::InsufficientFunds);
    assert_eq!(error(poor(21_000, 21_001)), RawTxError::InsufficientFunds);
    assert!(matches!(poor(21_000, 0), RawTxValidation::Done(Ok(_))));
    assert!(matches!(poor(21_001, 21_001), RawTxValidation::Done(Ok(_))));
}

#[test]
fn gas_limit_above_that_of_a_block_is_refused() {
    let with = |gas_limit: U256| {
        up_to_fees(Transaction { gas_limit, ..known() }, false, word(1_000_000))
            .step(Event::PrepayGas(word(0)))
    };
    assert_eq!(error(with(word(30_000_001))), RawTxError::GasLimit);
    assert_eq!(error(with(U256([0, 0, 0, 1]))), RawTxError::GasLimit);
    assert!(matches!(with(word(30_000_000)), RawTxValidation::Done(Ok(_))));
}

#[test]
fn gas_is_measured_by_a_call_of_the_sender() {
    let transaction = || Transaction { data: vec![1, 2], access_list: list(), ..known() };
    let validation =
        up_to_fees(transaction(), true, word(30_000)).step(Event::PrepayGas(word(30_000)));
    assert!(validation.execution().is_none());
    let found = BlockHead { number: word(6), state_root: H256([2; 32]) };
    let validation = validation.step(Event::Call(CallEvent::Block(Some(found))));
    let execution = validation.execution().unwrap();
    assert_eq!(execution.backend.state_root, H256([2; 32]));
    assert_eq!(execution.backend.vicinity.block_number, word(6));
    assert_eq!(execution.backend.vicinity.origin, sender());
    assert_eq!(execution.backend.vicinity.gas_limit, word(21_000));
    assert_eq!(execution.context.caller, sender());
    assert_eq!(execution.context.to, Some(H160([0x35; 20])));
    assert_eq!(execution.context.value, word(1_000_000_000_000_000_000));
    assert_eq!(execution.context.data, &[1, 2]);
    assert_eq!(execution.context.gas_limit, 21_000);
    assert_eq!(execution.context.access_list, list());
    let response = TxResponse { used_gas: 20_500, rest: 0 };
    let validation = validation.step(Event::Call(CallEvent::Executed(Ok(response))));
    assert_eq!(
        validation,
        RawTxValidation::Done(Ok((
            SignedTx { transaction: transaction(), sender: sender() },
            20_500
        )))
    );
}

#[test]
fn gas_that_cannot_be_measured_is_an_error() {
    let gone = || EVMBackendError::Other("gone".to_string());
    let validation = up_to_fees(known(), true, word(30_000))
        .step(Event::PrepayGas(word(0)))
        .step(Event::Call(CallEvent::Block(None)))
        .step(Event::Call(CallEvent::Executed(Err(gone()))));
    assert_eq!(error(validation), RawTxError::Call(CallError::Backend(gone())));
}

#[test]
fn check_ignores_what_it_does_not_wait_for() {
    let validation = validate_decoded(Some(known()), true).step(Event::PrepayGas(word(0)));
    assert_eq!(
        validation,
        RawTxValidation::FindLatest { transaction: known(), with_gas_usage: true }
    );
}
