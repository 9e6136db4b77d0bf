use ain_evm::error::{
    CallError, EVMBackendError, EVMError, InsufficientBalance, QueueError, RawTxError,
};
use ain_evm::outside::hex_text::HexError;
use ain_evm::primitives::{H160, U256};

fn other(text: &str) -> EVMBackendError {
    EVMBackendError::Other(text.to_string())
}

fn refused() -> InsufficientBalance {
    InsufficientBalance {
        address: H160([1; 20]),
        account_balance: U256::from_u64(1),
        amount: U256::from_u64(2),
    }
}

#[test]
fn core_errors_are_written_out() {
    assert_eq!(
        EVMError::BackendError(other("no trie")).written("unused"),
        "EVMError: Backend error: no trie"
    );
    assert_eq!(
        EVMError::QueueError(QueueError("no such context".to_string())).written("unused"),
        "EVMError: Queue error: no such context"
    );
    assert_eq!(
        EVMError::TrieError("broken".to_string()).written("unused"),
        "EVMError: Trie error broken"
    );
}

#[test]
fn refused_withdrawals_are_written_with_the_text_given() {
    let refusal = || EVMBackendError::InsufficientBalance(refused());
    let error = EVMError::BackendError(refusal());
    assert_eq!(error.refused_withdrawal(), Some(refused()));
    assert_eq!(error.written("too little"), "EVMError: Backend error: too little");
    let error = CallError::Backend(refusal());
    assert_eq!(error.refused_withdrawal(), Some(refused()));
    assert_eq!(error.written("too little"), "------ Could not restore backend too little");
    let error = RawTxError::Balance(EVMError::BackendError(refusal()));
    assert_eq!(error.refused_withdrawal(), Some(refused()));
    assert_eq!(
        error.written("too little"),
        "Error getting balance EVMError: Backend error: too little"
    );
}

#[test]
fn other_errors_refuse_no_withdrawal() {
    assert_eq!(other("a").refused_withdrawal(), None);
    assert_eq!(EVMError::BackendError(other("a")).refused_withdrawal(), None);
    assert_eq!(EVMError::QueueError(QueueError("a".to_string())).refused_withdrawal(), None);
    assert_eq!(CallError::Backend(other("a")).refused_withdrawal(), None);
    assert_eq!(RawTxError::Hex(HexError::OddLength).refused_withdrawal(), None);
    assert_eq!(RawTxError::GasLimit.refused_withdrawal(), None);
}

#[test]
fn missing_account_is_named_in_lower_case_hexadecimal() {
    let mut address = [0u8; 20];
    address[0] = 0xAB;
    address[19] = 0x0F;
    assert_eq!(
        EVMError::NoSuchAccount(H160(address)).written(""),
        "EVMError: No such acccount for address 0xab0000000000000000000000000000000000000f"
    );
}

#[test]
fn errors_are_converted() {
    let refusal = EVMBackendError::InsufficientBalance(refused());
    assert_eq!(EVMError::from(other("a")), EVMError::BackendError(other("a")));
    assert!(matches!(
        EVMError::from(refusal),
        EVMError::BackendError(EVMBackendError::InsufficientBalance(_))
    ));
    assert_eq!(
        EVMError::from(QueueError("b".to_string())),
        EVMError::QueueError(QueueError("b".to_string()))
    );
}

#[test]
fn refusals_of_raw_transactions_are_written_out() {
    assert_eq!(
        RawTxError::Hex(HexError::OddLength).written("unused"),
        "Odd number of digits"
    );
    assert_eq!(
        RawTxError::Hex(HexError::InvalidStringLength).written("unused"),
        "Invalid string length"
    );
    assert_eq!(
        RawTxError::Hex(HexError::InvalidHexCharacter { c: 'x', index: 12 }).written("unused"),
        "Invalid character 'x' at position 12"
    );
    assert_eq!(
        RawTxError::Hex(HexError::InvalidHexCharacter { c: '\n', index: 5 }).written("unused"),
        "Invalid character '\\n' at position 5"
    );
    assert_eq!(RawTxError::Decode.written(""), "Error: decoding raw tx to TransactionV2");
    assert_eq!(RawTxError::Sender("bad signature".to_string()).written(""), "bad signature");
    assert_eq!(
        RawTxError::Nonce(EVMError::BackendError(other("no trie"))).written("unused"),
        "Error getting nonce EVMError: Backend error: no trie"
    );
    assert_eq!(
        RawTxError::Balance(EVMError::BackendError(other("no trie"))).written("unused"),
        "Error getting balance EVMError: Backend error: no trie"
    );
    assert_eq!(RawTxError::InsufficientFunds.written(""), "insufficient balance to pay fees");
    assert_eq!(RawTxError::GasLimit.written(""), "Gas limit higher than MAX_GAS_PER_BLOCK");
    assert_eq!(
        RawTxError::Call(CallError::Backend(other("no trie"))).written("unused"),
        "------ Could not restore backend no trie"
    );
}

#[test]
fn invalid_nonces_are_written_in_decimal() {
    let refusal = RawTxError::InvalidNonce {
        account_nonce: U256([0, 1, 0, 0]),
        tx_nonce: U256::from_u64(0),
    };
    assert_eq!(
        refusal.written(""),
        "Invalid nonce. Account nonce 18446744073709551616, signed_tx nonce 0"
    );
}
