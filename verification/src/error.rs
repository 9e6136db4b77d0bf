//! What can go wrong, and the text that says so.
use crate::outside::hex_text::{error_text, HexError};
use crate::outside::words::{address_text, decimal_text};
use crate::primitives::{H160, U256};
use vstd::prelude::*;
use vstd::string::*;

verus! {

/// A withdrawal that asks for more than the account has.
#[derive(Clone, Copy, Debug, PartialEq, Eq)]
pub struct InsufficientBalance {
    pub address: H160,
    pub account_balance: U256,
    pub amount: U256,
}

/// An error of the state backend.
#[derive(Debug, PartialEq, Eq)]
pub enum EVMBackendError {
    InsufficientBalance(InsufficientBalance),
    /// Any other error, by its text.
    Other(String),
}

impl EVMBackendError {
    /// The text of the error, where the error holds it.
    pub open spec fn held_cause(self) -> Option<Seq<char>> {
        match self {
            EVMBackendError::InsufficientBalance(_) => None,
            EVMBackendError::Other(text) => Some(text@),
        }
    }

    /// The withdrawal that was refused, where that is the error.
    pub open spec fn refused(self) -> Option<InsufficientBalance> {
        match self {
            EVMBackendError::InsufficientBalance(refused) => Some(refused),
            EVMBackendError::Other(_) => None,
        }
    }

    /// Computes [`EVMBackendError::refused`].
    pub fn refused_withdrawal(&self) -> (r: Option<InsufficientBalance>)
        ensures
            r == self.refused(),
    {
        match self {
            EVMBackendError::InsufficientBalance(refused) => Some(*refused),
            EVMBackendError::Other(_) => None,
        }
    }

    /// The text that the error holds, or else `refusal`.
    fn held_or<'a>(&'a self, refusal: &'a str) -> (r: &'a str)
        ensures
            r@ == held_or_given(self.held_cause(), refusal@),
    {
        match self {
            EVMBackendError::InsufficientBalance(_) => refusal,
            EVMBackendError::Other(text) => text.as_str(),
        }
    }
}

/// The text that an error holds, or else the one that is given.
pub open spec fn held_or_given(held: Option<Seq<char>>, given: Seq<char>) -> Seq<char> {
    match held {
        Some(text) => text,
        None => given,
    }
}

/// An error of the transaction queues, by its text.
#[derive(Debug, PartialEq, Eq)]
pub struct QueueError(pub String);

/// An error of the core.
#[derive(Debug, PartialEq, Eq)]
pub enum EVMError {
    BackendError(EVMBackendError),
    QueueError(QueueError),
    NoSuchAccount(H160),
    TrieError(String),
}

impl From<EVMBackendError> for EVMError {
    fn from(e: EVMBackendError) -> (r: Self) {
        EVMError::BackendError(e)
    }
}

impl vstd::std_specs::convert::FromSpecImpl<EVMBackendError> for EVMError {
    open spec fn obeys_from_spec() -> bool {
        true
    }

    open spec fn from_spec(e: EVMBackendError) -> Self {
        EVMError::BackendError(e)
    }
}

impl From<QueueError> for EVMError {
    fn from(e: QueueError) -> (r: Self) {
        EVMError::QueueError(e)
    }
}

impl vstd::std_specs::convert::FromSpecImpl<QueueError> for EVMError {
    open spec fn obeys_from_spec() -> bool {
        true
    }

    open spec fn from_spec(e: QueueError) -> Self {
        EVMError::QueueError(e)
    }
}

/// `front` with `back` behind it.
fn joined(front: &str, back: &str) -> (r: String)
    ensures
        r@ == front@ + back@,
{
    let mut text = front.to_owned();
    text.append(back);
    text
}

impl EVMError {
    /// The text of the error, where `cause` is the text of the error that it
    /// wraps.
    pub open spec fn text(self, cause: Seq<char>) -> Seq<char> {
        match self {
            EVMError::BackendError(_) => "EVMError: Backend error: "@ + cause,
            EVMError::QueueError(_) => "EVMError: Queue error: "@ + cause,
            EVMError::NoSuchAccount(address) => "EVMError: No such acccount for address "@
                + crate::outside::words::prefixed_hex(address.0@),
            EVMError::TrieError(e) => "EVMError: Trie error "@ + e@,
        }
    }

    /// The text of the error that this one wraps, where it is held.
    pub open spec fn held_cause(self) -> Option<Seq<char>> {
        match self {
            EVMError::BackendError(e) => e.held_cause(),
            EVMError::QueueError(e) => Some(e.0@),
            _ => None,
        }
    }

    /// The withdrawal that was refused, where that is the error.
    pub open spec fn refused(self) -> Option<InsufficientBalance> {
        match self {
            EVMError::BackendError(e) => e.refused(),
            _ => None,
        }
    }

    /// Computes [`EVMError::refused`].
    pub fn refused_withdrawal(&self) -> (r: Option<InsufficientBalance>)
        ensures
            r == self.refused(),
    {
        match self {
            EVMError::BackendError(e) => e.refused_withdrawal(),
            _ => None,
        }
    }

    /// Writes the error out. `refusal` is the text of a refused withdrawal; any other
    /// error does not look at it.
    pub fn written(&self, refusal: &str) -> (r: String)
        ensures
            r@ == self.text(held_or_given(self.held_cause(), refusal@)),
    {
        match self {
            EVMError::BackendError(e) => joined("EVMError: Backend error: ", e.held_or(refusal)),
            EVMError::QueueError(e) => joined("EVMError: Queue error: ", e.0.as_str()),
            EVMError::NoSuchAccount(address) => joined(
                "EVMError: No such acccount for address ",
                address_text(address.0).as_str(),
            ),
            EVMError::TrieError(e) => joined("EVMError: Trie error ", e.as_str()),
        }
    }
}

/// Why a call could not be made.
#[derive(Debug, PartialEq, Eq)]
pub enum CallError {
    /// The state at the block of the call could not be opened.
    Backend(EVMBackendError),
}

impl CallError {
    /// The text of the error, where `cause` is the text of the error that it
    /// wraps.
    pub open spec fn text(self, cause: Seq<char>) -> Seq<char> {
        "------ Could not restore backend "@ + cause
    }

    /// The text of the error that this one wraps, where it is held.
    pub open spec fn held_cause(self) -> Option<Seq<char>> {
        match self {
            CallError::Backend(e) => e.held_cause(),
        }
    }

    /// The withdrawal that was refused, where that is the error.
    pub open spec fn refused(self) -> Option<InsufficientBalance> {
        match self {
            CallError::Backend(e) => e.refused(),
        }
    }

    /// Computes [`CallError::refused`].
    pub fn refused_withdrawal(&self) -> (r: Option<InsufficientBalance>)
        ensures
            r == self.refused(),
    {
        match self {
            CallError::Backend(e) => e.refused_withdrawal(),
        }
    }

    /// Writes the error out. `refusal` is the text of a refused withdrawal; any other
    /// error does not look at it.
    pub fn written(&self, refusal: &str) -> (r: String)
        ensures
            r@ == self.text(held_or_given(self.held_cause(), refusal@)),
    {
        match self {
            CallError::Backend(e) => joined(
                "------ Could not restore backend ",
                e.held_or(refusal),
            ),
        }
    }
}

/// Why a raw transaction is refused.
#[derive(Debug, PartialEq, Eq)]
pub enum RawTxError {
    /// The text is not hexadecimal.
    Hex(HexError),
    /// The bytes encode no transaction.
    Decode,
    /// No sender can be told from the signature, for the reason given.
    Sender(String),
    /// The account's nonce could not be read.
    Nonce(EVMError),
    /// The account has used the transaction's nonce.
    InvalidNonce { account_nonce: U256, tx_nonce: U256 },
    /// The account's balance could not be read.
    Balance(EVMError),
    /// The account cannot pay the fees.
    InsufficientFunds,
    /// The transaction asks for more gas than a block has.
    GasLimit,
    /// The gas could not be measured.
    Call(CallError),
}

impl RawTxError {
    /// The text of the error, where `cause` is the text of the error at its root.
    pub open spec fn text(self, cause: Seq<char>) -> Seq<char> {
        match self {
            RawTxError::Hex(_) => cause,
            RawTxError::Decode => "Error: decoding raw tx to TransactionV2"@,
            RawTxError::Sender(e) => e@,
            RawTxError::Nonce(e) => "Error getting nonce "@ + e.text(cause),
            RawTxError::InvalidNonce { account_nonce, tx_nonce } => "Invalid nonce. Account nonce "@
                + crate::outside::words::decimal(account_nonce.value()) + ", signed_tx nonce "@
                + crate::outside::words::decimal(tx_nonce.value()),
            RawTxError::Balance(e) => "Error getting balance "@ + e.text(cause),
            RawTxError::InsufficientFunds => "insufficient balance to pay fees"@,
            RawTxError::GasLimit => "Gas limit higher than MAX_GAS_PER_BLOCK"@,
            RawTxError::Call(e) => e.text(cause),
        }
    }

    /// The text of the error at the root of this one, where it is held or is that of
    /// a refused hexadecimal text.
    pub open spec fn held_cause(self) -> Option<Seq<char>> {
        match self {
            RawTxError::Hex(e) => Some(crate::outside::hex_text::hex_error_text(e)),
            RawTxError::Nonce(e) => e.held_cause(),
            RawTxError::Balance(e) => e.held_cause(),
            RawTxError::Call(e) => e.held_cause(),
            _ => None,
        }
    }

    /// The withdrawal that was refused, where that is the error at the root.
    pub open spec fn refused(self) -> Option<InsufficientBalance> {
        match self {
            RawTxError::Nonce(e) => e.refused(),
            RawTxError::Balance(e) => e.refused(),
            RawTxError::Call(e) => e.refused(),
            _ => None,
        }
    }

    /// Computes [`RawTxError::refused`].
    pub fn refused_withdrawal(&self) -> (r: Option<InsufficientBalance>)
        ensures
            r == self.refused(),
    {
        match self {
            RawTxError::Nonce(e) => e.refused_withdrawal(),
            RawTxError::Balance(e) => e.refused_withdrawal(),
            RawTxError::Call(e) => e.refused_withdrawal(),
            _ => None,
        }
    }

    /// Writes the error out. `refusal` is the text of a refused withdrawal; any other
    /// error does not look at it.
    pub fn written(&self, refusal: &str) -> (r: String)
        ensures
            r@ == self.text(held_or_given(self.held_cause(), refusal@)),
            *self matches RawTxError::Hex(HexError::OddLength) ==> r@ == "Odd number of digits"@,
            *self matches RawTxError::Hex(HexError::InvalidStringLength) ==> r@
                == "Invalid string length"@,
            *self matches RawTxError::Hex(HexError::InvalidHexCharacter { c, index })
                ==> crate::outside::hex_text::is_plain(c) ==> r@ == "Invalid character '"@ + seq![c]
                + "' at position "@ + crate::outside::words::decimal(index as nat),
    {
        match self {
            RawTxError::Hex(e) => error_text(*e),
            RawTxError::Decode => "Error: decoding raw tx to TransactionV2".to_owned(),
            RawTxError::Sender(e) => e.clone(),
            RawTxError::Nonce(e) => joined("Error getting nonce ", e.written(refusal).as_str()),
            RawTxError::InvalidNonce { account_nonce, tx_nonce } => {
                let mut text = joined(
                    "Invalid nonce. Account nonce ",
                    decimal_text(account_nonce.0).as_str(),
                );
                text.append(", signed_tx nonce ");
                text.append(decimal_text(tx_nonce.0).as_str());
                text
            },
            RawTxError::Balance(e) => joined("Error getting balance ", e.written(refusal).as_str()),
            RawTxError::InsufficientFunds => "insufficient balance to pay fees".to_owned(),
            RawTxError::GasLimit => "Gas limit higher than MAX_GAS_PER_BLOCK".to_owned(),
            RawTxError::Call(e) => e.written(refusal),
        }
    }
}

/// An error of the core is written out in one way, whatever text is given for a
/// refused withdrawal, unless it is one.
pub proof fn law_core_error_has_one_text(error: EVMError, a: Seq<char>, b: Seq<char>)
    requires
        error.refused() is None,
    ensures
        error.text(held_or_given(error.held_cause(), a)) == error.text(
            held_or_given(error.held_cause(), b),
        ),
{
}

/// The failure of a call is written out in one way, whatever text is given for a
/// refused withdrawal, unless it is one.
pub proof fn law_call_error_has_one_text(error: CallError, a: Seq<char>, b: Seq<char>)
    requires
        error.refused() is None,
    ensures
        error.text(held_or_given(error.held_cause(), a)) == error.text(
            held_or_given(error.held_cause(), b),
        ),
{
}

/// The refusal of a raw transaction is written out in one way, whatever text is given
/// for a refused withdrawal, unless one is at its root.
pub proof fn law_raw_tx_error_has_one_text(error: RawTxError, a: Seq<char>, b: Seq<char>)
    requires
        error.refused() is None,
    ensures
        error.text(held_or_given(error.held_cause(), a)) == error.text(
            held_or_given(error.held_cause(), b),
        ),
{
}

} // verus!
