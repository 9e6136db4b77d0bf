//! The core of an EVM node that lives beside a native chain.
//!
//! The core decides and computes; it performs no input or output. An operation that
//! needs the node's storage, state or queues is a value that says what it waits for,
//! and its `step` takes the answer:
//!
//! - [`state`]: accounts, balances, nonces, code and stored words at a block;
//! - [`call`]: calls that are executed without being put into a block;
//! - [`validation`]: the check of raw transactions;
//! - [`queue`]: transfers from and to the native chain, and the next valid nonce;
//! - [`bloom`]: the filter over the logs of a block;
//! - [`startup`] and [`genesis`]: how a service comes to be.
//!
//! [`host`] says what each operation comes to against a host that answers it, and
//! [`laws`] proves that, with what holds whatever the answers are. The calls into
//! other crates stand in [`outside`].
pub mod bloom;
pub mod call;
pub mod chain;
pub mod error;
pub mod genesis;
pub mod host;
pub mod laws;
pub mod outside;
pub mod primitives;
pub mod queue;
pub mod service;
pub mod startup;
pub mod state;
pub mod transaction;
pub mod validation;
