//! What the core reads of the chain and its state.
use crate::primitives::{H160, H256, U256};
use vstd::prelude::*;

verus! {

/// What the core reads of a block: its number and the root of its state.
#[derive(Clone, Copy, Debug, PartialEq, Eq)]
pub struct BlockHead {
    pub number: U256,
    pub state_root: H256,
}

/// An account of the state.
#[derive(Clone, Copy, Debug, PartialEq, Eq)]
pub struct Account {
    pub nonce: U256,
    pub balance: U256,
    pub storage_root: H256,
    pub code_hash: H256,
}

/// The surroundings in which a transaction is executed. What is not named here
/// has its default.
#[derive(Clone, Copy, Debug, PartialEq, Eq)]
pub struct Vicinity {
    pub block_number: U256,
    pub origin: H160,
    pub gas_limit: U256,
}

impl Vicinity {
    /// The surroundings where nothing is set.
    pub open spec fn unset() -> Self {
        Vicinity {
            block_number: U256::zeros(),
            origin: H160::zeros(),
            gas_limit: U256::zeros(),
        }
    }
}

impl Default for Vicinity {
    fn default() -> (r: Self)
        ensures
            r == Vicinity::unset(),
    {
        Vicinity {
            block_number: U256::default(),
            origin: H160::default(),
            gas_limit: U256::default(),
        }
    }
}

/// Asks for the state below a root, to be used in given surroundings.
#[derive(Clone, Copy, Debug, PartialEq, Eq)]
pub struct BackendRequest {
    pub state_root: H256,
    pub vicinity: Vicinity,
}

/// The state root of a block, or zeros where there is no block.
pub open spec fn root_of(found: Option<BlockHead>) -> H256 {
    match found {
        Some(block) => block.state_root,
        None => H256::zeros(),
    }
}

/// The number of a block, or zero where there is no block.
pub open spec fn number_of(found: Option<BlockHead>) -> U256 {
    match found {
        Some(block) => block.number,
        None => U256::zeros(),
    }
}

/// Computes [`root_of`].
pub fn state_root_of(found: Option<BlockHead>) -> (r: H256)
    ensures
        r == root_of(found),
{
    match found {
        Some(block) => block.state_root,
        None => H256::default(),
    }
}

/// Computes [`number_of`].
pub fn block_number_of(found: Option<BlockHead>) -> (r: U256)
    ensures
        r == number_of(found),
{
    match found {
        Some(block) => block.number,
        None => U256::default(),
    }
}

} // verus!
