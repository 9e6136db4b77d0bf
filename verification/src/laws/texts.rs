//! How errors, numbers and bytes are written and read.
use crate::error::{
    CallError, EVMBackendError, EVMError, InsufficientBalance, QueueError, RawTxError,
};
use crate::outside::hex_text::HexError;
use crate::primitives::{H160, U256};
use vstd::prelude::*;

verus! {

/// How an error of the core is written, where `refusal` is the text of a refused
/// withdrawal.
pub open spec fn core_text(error: EVMError, refusal: Seq<char>) -> Seq<char> {
    error.text(crate::error::held_or_given(error.held_cause(), refusal))
}

/// How the failure of a call is written.
pub open spec fn call_text(error: CallError, refusal: Seq<char>) -> Seq<char> {
    error.text(crate::error::held_or_given(error.held_cause(), refusal))
}

/// How the refusal of a raw transaction is written.
pub open spec fn raw_tx_text(error: RawTxError, refusal: Seq<char>) -> Seq<char> {
    error.text(crate::error::held_or_given(error.held_cause(), refusal))
}

/// An error of the core is written with the text of the error that it wraps behind its
/// own, and a missing account with its address.
pub proof fn law_core_texts(
    text: String,
    short: InsufficientBalance,
    address: H160,
    refusal: Seq<char>,
)
    ensures
        core_text(EVMError::BackendError(EVMBackendError::Other(text)), refusal)
            == "EVMError: Backend error: "@ + text@,
        core_text(
            EVMError::BackendError(EVMBackendError::InsufficientBalance(short)),
            refusal,
        ) == "EVMError: Backend error: "@ + refusal,
        core_text(EVMError::QueueError(QueueError(text)), refusal) == "EVMError: Queue error: "@
            + text@,
        core_text(EVMError::NoSuchAccount(address), refusal)
            == "EVMError: No such acccount for address "@ + crate::outside::words::prefixed_hex(
            address.0@,
        ),
        core_text(EVMError::TrieError(text), refusal) == "EVMError: Trie error "@ + text@,
        EVMError::BackendError(EVMBackendError::InsufficientBalance(short)).refused() == Some(short),
        EVMError::BackendError(EVMBackendError::Other(text)).refused() is None,
        EVMError::QueueError(QueueError(text)).refused() is None,
        EVMError::NoSuchAccount(address).refused() is None,
        EVMError::TrieError(text).refused() is None,
{
}

/// The refusal of a raw transaction is written with the text of the error at its root,
/// and one for its nonce with both nonces in decimal.
pub proof fn law_refusal_texts(
    text: String,
    short: InsufficientBalance,
    error: EVMError,
    account_nonce: U256,
    tx_nonce: U256,
    hex: HexError,
    refusal: Seq<char>,
)
    ensures
        call_text(CallError::Backend(EVMBackendError::Other(text)), refusal)
            == "------ Could not restore backend "@ + text@,
        call_text(CallError::Backend(EVMBackendError::InsufficientBalance(short)), refusal)
            == "------ Could not restore backend "@ + refusal,
        CallError::Backend(EVMBackendError::InsufficientBalance(short)).refused() == Some(short),
        raw_tx_text(RawTxError::Hex(hex), refusal) == crate::outside::hex_text::hex_error_text(hex),
        raw_tx_text(RawTxError::Decode, refusal) == "Error: decoding raw tx to TransactionV2"@,
        raw_tx_text(RawTxError::Sender(text), refusal) == text@,
        raw_tx_text(RawTxError::Nonce(error), refusal) == "Error getting nonce "@ + core_text(
            error,
            refusal,
        ),
        raw_tx_text(RawTxError::InvalidNonce { account_nonce, tx_nonce }, refusal)
            == "Invalid nonce. Account nonce "@ + crate::outside::words::decimal(
            account_nonce.value(),
        ) + ", signed_tx nonce "@ + crate::outside::words::decimal(tx_nonce.value()),
        raw_tx_text(RawTxError::Balance(error), refusal) == "Error getting balance "@ + core_text(
            error,
            refusal,
        ),
        raw_tx_text(RawTxError::InsufficientFunds, refusal) == "insufficient balance to pay fees"@,
        raw_tx_text(RawTxError::GasLimit, refusal) == "Gas limit higher than MAX_GAS_PER_BLOCK"@,
        raw_tx_text(RawTxError::Call(CallError::Backend(EVMBackendError::Other(text))), refusal)
            == "------ Could not restore backend "@ + text@,
        raw_tx_text(
            RawTxError::Call(CallError::Backend(EVMBackendError::InsufficientBalance(short))),
            refusal,
        ) == "------ Could not restore backend "@ + refusal,
        RawTxError::Nonce(error).refused() == error.refused(),
        RawTxError::Balance(error).refused() == error.refused(),
        RawTxError::Call(CallError::Backend(EVMBackendError::InsufficientBalance(short))).refused()
            == Some(short),
{
}

/// The number that decimal digits stand for.
pub open spec fn digits_value(text: Seq<char>) -> int
    decreases text.len(),
{
    if text.len() == 0 {
        0
    } else {
        10 * digits_value(text.drop_last()) + (text.last() as int - '0' as int)
    }
}

/// A number in decimal has only digits, which stand for it, and begins with zero only
/// where it is zero.
pub proof fn law_decimal(number: nat)
    ensures
        digits_value(crate::outside::words::decimal(number)) == number,
        crate::outside::words::decimal(number).len() > 0,
        forall|i: int|
            0 <= i < crate::outside::words::decimal(number).len() ==> '0'
                <= #[trigger] crate::outside::words::decimal(number)[i] <= '9',
        crate::outside::words::decimal(number)[0] == '0' ==> number == 0,
    decreases number,
{
    let text = crate::outside::words::decimal(number);
    if number < 10 {
        assert(text.drop_last() =~= Seq::empty());
        assert(digits_value(text.drop_last()) == 0);
    } else {
        law_decimal(number / 10);
        assert(text.drop_last() =~= crate::outside::words::decimal(number / 10));
        assert(text[0] == crate::outside::words::decimal(number / 10)[0]);
        assert forall|i: int| 0 <= i < text.len() implies '0' <= #[trigger] text[i] <= '9' by {
            if i < text.len() - 1 {
                assert(text[i] == crate::outside::words::decimal(number / 10)[i]);
            }
        }
    }
}

/// A hexadecimal digit is one of sixteen characters, in either case.
pub proof fn law_hex_digits(digit: u8, value: u8)
    requires
        value < 16,
    ensures
        crate::outside::words::hex_digit(value as int) == "0123456789abcdef"@[value as int],
        crate::outside::hex_text::digit_value(digit) == Some(value) <==> digit as char
            == "0123456789abcdef"@[value as int] || digit as char
            == "0123456789ABCDEF"@[value as int],
        crate::outside::hex_text::digit_value(digit) matches Some(v) ==> v < 16,
{
    reveal_strlit("0123456789abcdef");
    reveal_strlit("0123456789ABCDEF");
}

/// An address is written with two digits for each byte behind `0x`, the higher one
/// first.
pub proof fn law_prefixed_hex(bytes: Seq<u8>, i: int)
    requires
        0 <= i < bytes.len(),
    ensures
        crate::outside::words::prefixed_hex(bytes).len() == 2 + 2 * bytes.len(),
        crate::outside::words::prefixed_hex(bytes)[0] == '0',
        crate::outside::words::prefixed_hex(bytes)[1] == 'x',
        crate::outside::words::prefixed_hex(bytes)[2 + 2 * i] == "0123456789abcdef"@[bytes[i] as int
            / 16],
        crate::outside::words::prefixed_hex(bytes)[3 + 2 * i] == "0123456789abcdef"@[bytes[i] as int
            % 16],
{
    reveal_strlit("0x");
    law_hex_digits(0, (bytes[i] / 16) as u8);
    law_hex_digits(0, (bytes[i] % 16) as u8);
    assert((2 * i) / 2 == i && (2 * i + 1) / 2 == i);
    assert((2 * i) % 2 == 0 && (2 * i + 1) % 2 == 1);
}

/// A text is read as hexadecimal if and only if it is made of pairs of digits, and each
/// byte is read from its own pair, the higher digit first.
pub proof fn law_hex_reads_pairs(text: Seq<u8>, i: int)
    requires
        crate::outside::hex_text::is_hex(text),
        0 <= i < text.len() / 2,
    ensures
        text.len() % 2 == 0,
        crate::outside::hex_text::digit_pairs(text).len() * 2 == text.len(),
        ({
            let byte = crate::outside::hex_text::digit_pairs(text)[i];
            &&& text[2 * i] as char == "0123456789abcdef"@[byte as int / 16] || text[2 * i] as char
                == "0123456789ABCDEF"@[byte as int / 16]
            &&& text[2 * i + 1] as char == "0123456789abcdef"@[byte as int % 16] || text[2 * i
                + 1] as char == "0123456789ABCDEF"@[byte as int % 16]
        }),
{
    assert(crate::outside::hex_text::digit_value(text[2 * i]) is Some);
    assert(crate::outside::hex_text::digit_value(text[2 * i + 1]) is Some);
    let high = crate::outside::hex_text::digit_value(text[2 * i])->Some_0;
    let low = crate::outside::hex_text::digit_value(text[2 * i + 1])->Some_0;
    law_hex_digits(text[2 * i], 0);
    law_hex_digits(text[2 * i + 1], 0);
    law_hex_digits(text[2 * i], high);
    law_hex_digits(text[2 * i + 1], low);
    let byte = crate::outside::hex_text::digit_pairs(text)[i];
    assert(byte == 16 * high + low);
}

/// Bytes that are written as pairs of digits of either case are read back.
pub proof fn law_hex_reads_back(text: Seq<u8>, bytes: Seq<u8>)
    requires
        text.len() == 2 * bytes.len(),
        forall|i: int|
            #![trigger bytes[i]]
            0 <= i < bytes.len() ==> {
                &&& text[2 * i] as char == "0123456789abcdef"@[bytes[i] as int / 16] || text[2
                    * i] as char == "0123456789ABCDEF"@[bytes[i] as int / 16]
                &&& text[2 * i + 1] as char == "0123456789abcdef"@[bytes[i] as int % 16] || text[2
                    * i + 1] as char == "0123456789ABCDEF"@[bytes[i] as int % 16]
            },
    ensures
        crate::outside::hex_text::is_hex(text),
        crate::outside::hex_text::digit_pairs(text) == bytes,
{
    assert forall|i: int| 0 <= i < bytes.len() implies {
        &&& crate::outside::hex_text::digit_value(text[2 * i]) == Some((#[trigger] bytes[i] / 16) as u8)
        &&& crate::outside::hex_text::digit_value(text[2 * i + 1]) == Some((bytes[i] % 16) as u8)
    } by {
        law_hex_digits(text[2 * i], (bytes[i] / 16) as u8);
        law_hex_digits(text[2 * i + 1], (bytes[i] % 16) as u8);
    }
    assert forall|j: int| 0 <= j < text.len() implies crate::outside::hex_text::digit_value(
        #[trigger] text[j],
    ) is Some by {
        let i = j / 2;
        assert(0 <= i < bytes.len());
        assert(j == 2 * i || j == 2 * i + 1);
        let byte = bytes[i];
    }
    assert(crate::outside::hex_text::digit_pairs(text) =~= bytes) by {
        assert forall|i: int| 0 <= i < bytes.len() implies #[trigger]
            crate::outside::hex_text::digit_pairs(text)[i] == bytes[i] by {
            let byte = bytes[i];
        }
    }
}

} // verus!
