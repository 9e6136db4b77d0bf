//! The calls into other crates, each with the contract that the rest of this
//! crate relies on.
pub mod envelope;
pub mod headers;
pub mod hex_text;
pub mod words;
