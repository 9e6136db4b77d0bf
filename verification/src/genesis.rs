//! The start of a chain from a genesis description.
use crate::bloom::Bloom;
use crate::outside::headers::{hash, new_block};
use crate::primitives::{H160, H256, H64, MAX_GAS_PER_BLOCK, U256};
use crate::service::EVMCoreService;
use crate::startup::{init_vsdb, VsdbEvent, VsdbSetup};
use vstd::prelude::*;

verus! {

/// A block header without what follows from the block's ommers and transactions.
#[derive(Debug, PartialEq, Eq)]
pub struct PartialHeader {
    pub parent_hash: H256,
    pub beneficiary: H160,
    pub state_root: H256,
    pub receipts_root: H256,
    pub logs_bloom: Bloom,
    pub difficulty: U256,
    pub number: U256,
    pub gas_limit: U256,
    pub gas_used: U256,
    pub timestamp: u64,
    pub extra_data: Vec<u8>,
    pub mix_hash: H256,
    pub nonce: H64,
}

/// What a [`PartialHeader`] holds.
#[verifier::ext_equal]
pub struct PartialFields {
    pub parent_hash: H256,
    pub beneficiary: H160,
    pub state_root: H256,
    pub receipts_root: H256,
    pub logs_bloom: Bloom,
    pub difficulty: U256,
    pub number: U256,
    pub gas_limit: U256,
    pub gas_used: U256,
    pub timestamp: u64,
    pub extra_data: Seq<u8>,
    pub mix_hash: H256,
    pub nonce: H64,
}

impl View for PartialHeader {
    type V = PartialFields;

    open spec fn view(&self) -> PartialFields {
        PartialFields {
            parent_hash: self.parent_hash,
            beneficiary: self.beneficiary,
            state_root: self.state_root,
            receipts_root: self.receipts_root,
            logs_bloom: self.logs_bloom,
            difficulty: self.difficulty,
            number: self.number,
            gas_limit: self.gas_limit,
            gas_used: self.gas_used,
            timestamp: self.timestamp,
            extra_data: self.extra_data@,
            mix_hash: self.mix_hash,
            nonce: self.nonce,
        }
    }
}

/// A block header.
#[derive(Debug, PartialEq, Eq)]
pub struct Header {
    pub partial: PartialHeader,
    pub ommers_hash: H256,
    pub transactions_root: H256,
}

/// What a [`Header`] holds.
#[verifier::ext_equal]
pub struct HeaderFields {
    pub partial: PartialFields,
    pub ommers_hash: H256,
    pub transactions_root: H256,
}

impl View for Header {
    type V = HeaderFields;

    open spec fn view(&self) -> HeaderFields {
        HeaderFields {
            partial: self.partial@,
            ommers_hash: self.ommers_hash,
            transactions_root: self.transactions_root,
        }
    }
}

/// What a genesis description says of the first block. What it leaves out has a
/// default.
#[derive(Debug, PartialEq, Eq)]
pub struct GenesisData {
    pub gas_limit: Option<U256>,
    pub extra_data: Option<Vec<u8>>,
    pub parent_hash: Option<H256>,
    pub mix_hash: Option<H256>,
    pub nonce: Option<H64>,
    pub timestamp: Option<U256>,
    pub difficulty: Option<U256>,
}

/// What is known once a genesis description was read: the root of the state that
/// it sets up, what it says of the block, the root of no receipts, and the fee
/// that the chain starts with.
#[derive(Debug, PartialEq, Eq)]
pub struct LoadedGenesis {
    pub state_root: H256,
    pub data: GenesisData,
    pub receipts_root: H256,
    pub initial_base_fee: U256,
}

/// The value that is there, or else the default.
pub open spec fn given_or<A>(value: Option<A>, default: A) -> A {
    match value {
        Some(a) => a,
        None => default,
    }
}

impl LoadedGenesis {
    /// Whether the timestamp, where there is one, fits into 64 bits.
    pub open spec fn timestamp_fits(self) -> bool {
        given_or(self.data.timestamp, U256::zeros()).value() <= u64::MAX
    }

    /// The header of the first block: the one with number zero.
    pub open spec fn header(self) -> PartialFields {
        PartialFields {
            parent_hash: given_or(self.data.parent_hash, H256::zeros()),
            beneficiary: H160::zeros(),
            state_root: self.state_root,
            receipts_root: self.receipts_root,
            logs_bloom: Bloom::zeros(),
            difficulty: given_or(self.data.difficulty, U256::zeros()),
            number: U256::zeros(),
            gas_limit: given_or(self.data.gas_limit, U256::of(MAX_GAS_PER_BLOCK as nat)),
            gas_used: U256::zeros(),
            timestamp: given_or(self.data.timestamp, U256::zeros()).value() as u64,
            extra_data: match self.data.extra_data {
                Some(bytes) => bytes@,
                None => Seq::empty(),
            },
            mix_hash: given_or(self.data.mix_hash, H256::zeros()),
            nonce: given_or(self.data.nonce, H64::zeros()),
        }
    }
}

/// The header of the first block.
pub fn genesis_header(loaded: LoadedGenesis) -> (r: PartialHeader)
    requires
        loaded.timestamp_fits(),
    ensures
        r@ == loaded.header(),
{
    let data = loaded.data;
    let timestamp = match data.timestamp {
        Some(timestamp) => timestamp,
        None => U256::default(),
    };
    PartialHeader {
        parent_hash: match data.parent_hash {
            Some(hash) => hash,
            None => H256::default(),
        },
        beneficiary: H160::default(),
        state_root: loaded.state_root,
        receipts_root: loaded.receipts_root,
        logs_bloom: Bloom::default(),
        difficulty: match data.difficulty {
            Some(difficulty) => difficulty,
            None => U256::default(),
        },
        number: U256::zero(),
        gas_limit: match data.gas_limit {
            Some(gas_limit) => gas_limit,
            None => U256::from_u64(MAX_GAS_PER_BLOCK),
        },
        gas_used: U256::default(),
        timestamp: timestamp.as_u64(),
        extra_data: match data.extra_data {
            Some(bytes) => bytes,
            None => Vec::new(),
        },
        mix_hash: match data.mix_hash {
            Some(hash) => hash,
            None => H256::default(),
        },
        nonce: match data.nonce {
            Some(nonce) => nonce,
            None => H64::default(),
        },
    }
}

/// A write to the block storage, of the block of a [`GenesisPlan`].
#[derive(Clone, Copy, Debug, PartialEq, Eq)]
pub enum StorageWrite {
    /// Make the block the latest one.
    PutLatestBlock,
    /// Store the block.
    PutBlock,
    /// Store the base fee of the block with this hash.
    SetBaseFee { block_hash: H256, base_fee: U256 },
}

/// The first block of a chain, and what is to be written for it, in this order.
#[derive(Debug, PartialEq, Eq)]
pub struct GenesisPlan {
    pub block: Header,
    pub writes: Vec<StorageWrite>,
}

/// The header of the first block, complete: the block has neither ommers nor
/// transactions.
pub open spec fn completed(header: PartialFields) -> HeaderFields {
    let roots = crate::outside::headers::empty_block_roots(header);
    HeaderFields {
        partial: header,
        ommers_hash: H256(roots.0),
        transactions_root: H256(roots.1),
    }
}

/// What is written for a first block: the block becomes the latest one, it is
/// stored, and its base fee is stored under its hash.
pub open spec fn genesis_writes(block: HeaderFields, base_fee: U256) -> Seq<StorageWrite> {
    seq![
        StorageWrite::PutLatestBlock,
        StorageWrite::PutBlock,
        StorageWrite::SetBaseFee {
            block_hash: H256(crate::outside::headers::header_hash(block)),
            base_fee,
        },
    ]
}

/// The plan for a first block, given the hash of the block.
pub fn plan_of(block: Header, block_hash: H256, base_fee: U256) -> (r: GenesisPlan)
    ensures
        r.block == block,
        r.writes@ == seq![
            StorageWrite::PutLatestBlock,
            StorageWrite::PutBlock,
            StorageWrite::SetBaseFee { block_hash, base_fee },
        ],
{
    let mut writes: Vec<StorageWrite> = Vec::new();
    writes.push(StorageWrite::PutLatestBlock);
    writes.push(StorageWrite::PutBlock);
    writes.push(StorageWrite::SetBaseFee { block_hash, base_fee });
    assert(writes@ =~= seq![
        StorageWrite::PutLatestBlock,
        StorageWrite::PutBlock,
        StorageWrite::SetBaseFee { block_hash, base_fee },
    ]);
    GenesisPlan { block, writes }
}

/// The plan for what was read of a genesis description.
pub fn plan_genesis(loaded: LoadedGenesis) -> (r: GenesisPlan)
    requires
        loaded.timestamp_fits(),
    ensures
        r.block@ == completed(loaded.header()),
        r.writes@ == genesis_writes(completed(loaded.header()), loaded.initial_base_fee),
{
    let base_fee = loaded.initial_base_fee;
    let partial = genesis_header(loaded);
    let (ommers_hash, transactions_root) = new_block(&partial);
    let block = Header {
        partial,
        ommers_hash: H256(ommers_hash),
        transactions_root: H256(transactions_root),
    };
    let block_hash = H256(hash(&block));
    plan_of(block, block_hash, base_fee)
}

/// The start of a chain on its way.
#[derive(Debug, PartialEq, Eq)]
pub enum GenesisStart<Q, T, S, P> {
    /// Waits for what the setup of the state database's directory waits for.
    Vsdb { setup: VsdbSetup, storage: S, path: P },
    /// Waits for new, empty queues and for a new trie store.
    OpenStores { storage: S, path: P },
    /// Waits for the genesis description at the path to be read into the
    /// service's stores.
    Load { service: EVMCoreService<Q, T, S>, path: P },
    /// Waits for the writes of the plan to be made.
    Write { service: EVMCoreService<Q, T, S>, plan: GenesisPlan },
    /// The service is there.
    Done(EVMCoreService<Q, T, S>),
}

/// An answer that a [`GenesisStart`] waits for.
#[derive(Debug, PartialEq, Eq)]
pub enum GenesisEvent<Q, T> {
    Vsdb(VsdbEvent),
    Stores { tx_queues: Q, trie_store: T },
    Loaded(LoadedGenesis),
    Written,
}

impl<Q, T, S, P> GenesisStart<Q, T, S, P> {
    /// Whether the start stands at `next` after an answer. An answer that it does
    /// not wait for changes nothing.
    pub open spec fn leads_to(self, event: GenesisEvent<Q, T>, next: Self) -> bool {
        match (self, event) {
            (GenesisStart::Vsdb { setup, storage, path }, GenesisEvent::Vsdb(e)) => match next {
                GenesisStart::Vsdb { setup: ahead, storage: kept, path: way } => {
                    &&& setup.leads_to(e, ahead)
                    &&& ahead != VsdbSetup::Done
                    &&& kept == storage
                    &&& way == path
                },
                GenesisStart::OpenStores { storage: kept, path: way } => {
                    &&& setup.leads_to(e, VsdbSetup::Done)
                    &&& kept == storage
                    &&& way == path
                },
                _ => false,
            },
            (
                GenesisStart::OpenStores { storage, path },
                GenesisEvent::Stores { tx_queues, trie_store },
            ) => next == (GenesisStart::Load {
                service: EVMCoreService { tx_queues, trie_store, storage },
                path,
            }),
            (GenesisStart::Load { service, path }, GenesisEvent::Loaded(loaded)) => {
                &&& next matches GenesisStart::Write { service: kept, plan }
                &&& kept == service
                &&& plan.block@ == completed(loaded.header())
                &&& plan.writes@ == genesis_writes(
                    completed(loaded.header()),
                    loaded.initial_base_fee,
                )
            },
            (
                GenesisStart::Write { service, plan },
                GenesisEvent::Written,
            ) => next == GenesisStart::<Q, T, S, P>::Done(service),
            _ => next == self,
        }
    }

    /// Takes an answer.
    pub fn step(self, event: GenesisEvent<Q, T>) -> (r: Self)
        requires
            self is Load && event is Loaded ==> event->Loaded_0.timestamp_fits(),
        ensures
            self.leads_to(event, r),
    {
        match (self, event) {
            (
                GenesisStart::Vsdb { setup, storage, path },
                GenesisEvent::Vsdb(e),
            ) => match setup.step(e) {
                VsdbSetup::Done => GenesisStart::OpenStores { storage, path },
                setup => GenesisStart::Vsdb { setup, storage, path },
            },
            (
                GenesisStart::OpenStores { storage, path },
                GenesisEvent::Stores { tx_queues, trie_store },
            ) => GenesisStart::Load {
                service: EVMCoreService { tx_queues, trie_store, storage },
                path,
            },
            (
                GenesisStart::Load { service, .. },
                GenesisEvent::Loaded(loaded),
            ) => GenesisStart::Write { service, plan: plan_genesis(loaded) },
            (GenesisStart::Write { service, .. }, GenesisEvent::Written) => GenesisStart::Done(
                service,
            ),
            (start, _) => start,
        }
    }
}

impl<Q, T, S> EVMCoreService<Q, T, S> {
    /// Starts a chain from the genesis description at a path.
    pub fn new_from_json<P>(storage: S, path: P) -> (r: GenesisStart<Q, T, S, P>)
        ensures
            r == (GenesisStart::<Q, T, S, P>::Vsdb {
                setup: VsdbSetup::GetDatadir,
                storage,
                path,
            }),
    {
        GenesisStart::Vsdb { setup: init_vsdb(), storage, path }
    }
}

} // verus!
