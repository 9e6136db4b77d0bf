//! What the start of a service sets up.
use crate::genesis::{GenesisEvent, GenesisStart, LoadedGenesis, StorageWrite};
use crate::service::EVMCoreService;
use crate::startup::{Restoration, RestorationEvent, Segments, VsdbEvent, VsdbSetup};
use vstd::prelude::*;

verus! {

/// Whether a path is the directory `evm` below a data directory.
pub open spec fn is_evm_dir(dir: Segments, datadir: String) -> bool {
    dir.0@.len() == 2 && dir.0@[0]@ == datadir@ && dir.0@[1]@ == "evm"@
}

/// Whether a path is `.vsdb` below the directory `evm` below a data directory.
pub open spec fn is_vsdb_dir(dir: Segments, datadir: String) -> bool {
    dir.0@.len() == 3 && dir.0@[0]@ == datadir@ && dir.0@[1]@ == "evm"@ && dir.0@[2]@ == ".vsdb"@
}

/// The directory that is looked for, and made where it is not there, is `evm` below the
/// data directory of the node; the state database is based on `.vsdb` below it, and the
/// setup ends once it is.
pub proof fn law_vsdb_by_answers(
    datadir: String,
    looked: VsdbSetup,
    missing: VsdbSetup,
    made: VsdbSetup,
    there: VsdbSetup,
    done: VsdbSetup,
)
    requires
        VsdbSetup::GetDatadir.leads_to(VsdbEvent::Datadir(datadir), looked),
        looked.leads_to(VsdbEvent::Exists(false), missing),
        missing.leads_to(VsdbEvent::Created, made),
        looked.leads_to(VsdbEvent::Exists(true), there),
        made.leads_to(VsdbEvent::BaseDirSet, done) || there.leads_to(VsdbEvent::BaseDirSet, done),
    ensures
        looked matches VsdbSetup::CheckDir(dir) && is_evm_dir(dir, datadir),
        missing matches VsdbSetup::CreateDir(dir) && is_evm_dir(dir, datadir),
        made matches VsdbSetup::SetBaseDir(base) && is_vsdb_dir(base, datadir),
        there matches VsdbSetup::SetBaseDir(base) && is_vsdb_dir(base, datadir),
        done == VsdbSetup::Done,
{
    let dir = looked->CheckDir_0;
    let base_made = made->SetBaseDir_0;
    let base_there = there->SetBaseDir_0;
    assert(dir@.len() == dir.0@.len());
    assert(dir@[0] == dir.0@[0]@ && dir@[1] == dir.0@[1]@);
    assert(base_made@.len() == base_made.0@.len());
    assert(base_made@[0] == base_made.0@[0]@ && base_made@[1] == base_made.0@[1]@ && base_made@[2]
        == base_made.0@[2]@);
    assert(base_there@.len() == base_there.0@.len());
    assert(base_there@[0] == base_there.0@[0]@ && base_there@[1] == base_there.0@[1]@
        && base_there@[2] == base_there.0@[2]@);
}

/// Whether a setup waits for such an answer.
pub open spec fn setup_waits(setup: VsdbSetup, event: VsdbEvent) -> bool {
    match event {
        VsdbEvent::Datadir(_) => setup is GetDatadir,
        VsdbEvent::Exists(_) => setup is CheckDir,
        VsdbEvent::Created => setup is CreateDir,
        VsdbEvent::BaseDirSet => setup is SetBaseDir,
    }
}

/// A setup takes no notice of an answer that it does not wait for.
pub proof fn law_setup_ignores(setup: VsdbSetup, event: VsdbEvent, next: VsdbSetup)
    requires
        !setup_waits(setup, event),
        setup.leads_to(event, next),
    ensures
        next == setup,
{
}

/// A restored service has the queues and the trie store that were opened and the
/// storage that was given. It takes no notice of an answer that is not waited for.
pub proof fn law_restored_parts<Q, T, S>(
    storage: S,
    tx_queues: Q,
    trie_store: T,
    setup: VsdbSetup,
    service: EVMCoreService<Q, T, S>,
    e: VsdbEvent,
    event: RestorationEvent<Q, T>,
    next: Restoration<Q, T, S>,
)
    ensures
        (Restoration::<Q, T, S>::OpenStores { storage }).leads_to(
            RestorationEvent::Stores { tx_queues, trie_store },
            next,
        ) ==> {
            &&& next matches Restoration::Done(made)
            &&& made.tx_queues == tx_queues && made.trie_store == trie_store
            &&& made.storage == storage
        },
        (Restoration::<Q, T, S>::OpenStores { storage }).leads_to(RestorationEvent::Vsdb(e), next)
            ==> next == (Restoration::<Q, T, S>::OpenStores { storage }),
        (Restoration::<Q, T, S>::Vsdb { setup, storage }).leads_to(
            RestorationEvent::Stores { tx_queues, trie_store },
            next,
        ) ==> next == (Restoration::<Q, T, S>::Vsdb { setup, storage }),
        Restoration::Done(service).leads_to(event, next) ==> next == Restoration::Done(service),
{
}

/// The header of the first block says what the genesis description says, unchanged,
/// and what that leaves out is zero or empty; only the gas limit is then the 30,000,000
/// of a whole block. All else is fixed: the block has number zero, it was mined by
/// nobody and used no gas, its state is the one that was set up, and its filter is
/// empty.
pub proof fn law_first_header(loaded: LoadedGenesis)
    requires
        loaded.data.timestamp matches Some(timestamp) ==> timestamp.value() <= u64::MAX,
    ensures
        ({
            let header = crate::genesis::completed(loaded.header()).partial;
            let data = loaded.data;
            &&& data.timestamp matches Some(timestamp) ==> header.timestamp == timestamp.value()
            &&& data.timestamp is None ==> header.timestamp == 0
            &&& data.difficulty matches Some(difficulty) ==> header.difficulty == difficulty
            &&& data.difficulty is None ==> header.difficulty.value() == 0
            &&& data.extra_data matches Some(bytes) ==> header.extra_data == bytes@
            &&& data.extra_data is None ==> header.extra_data.len() == 0
            &&& data.parent_hash matches Some(hash) ==> header.parent_hash == hash
            &&& data.parent_hash is None ==> crate::laws::values::all_zero(header.parent_hash.0@)
            &&& data.mix_hash matches Some(hash) ==> header.mix_hash == hash
            &&& data.mix_hash is None ==> crate::laws::values::all_zero(header.mix_hash.0@)
            &&& data.nonce matches Some(nonce) ==> header.nonce == nonce
            &&& data.nonce is None ==> crate::laws::values::all_zero(header.nonce.0@)
            &&& data.gas_limit matches Some(gas_limit) ==> header.gas_limit == gas_limit
            &&& data.gas_limit is None ==> header.gas_limit.value() == 30_000_000
            &&& header.number.value() == 0
            &&& header.gas_used.value() == 0
            &&& header.state_root == loaded.state_root
            &&& header.receipts_root == loaded.receipts_root
            &&& crate::laws::values::all_zero(header.beneficiary.0@)
            &&& crate::laws::values::all_zero(header.logs_bloom.0@)
        }),
{
    crate::laws::law_genesis_block(loaded);
}

/// What is planned once a description was read is a block with the header that the
/// description gives, field by field, completed for a block without ommers and
/// transactions. It is made the latest block, then stored, and then the first base fee
/// is stored under its hash. The service keeps its parts.
pub proof fn law_planned_block<Q, T, S, P>(
    service: EVMCoreService<Q, T, S>,
    path: P,
    loaded: LoadedGenesis,
    next: GenesisStart<Q, T, S, P>,
)
    requires
        loaded.data.timestamp matches Some(timestamp) ==> timestamp.value() <= u64::MAX,
        (GenesisStart::<Q, T, S, P>::Load { service, path }).leads_to(
            GenesisEvent::Loaded(loaded),
            next,
        ),
    ensures
        next matches GenesisStart::Write { service: kept, plan } && {
            let header = plan.block.partial;
            let data = loaded.data;
            let roots = crate::outside::headers::empty_block_roots(header@);
            &&& kept == service
            &&& data.timestamp matches Some(timestamp) ==> header.timestamp == timestamp.value()
            &&& data.timestamp is None ==> header.timestamp == 0
            &&& data.difficulty matches Some(difficulty) ==> header.difficulty == difficulty
            &&& data.difficulty is None ==> header.difficulty.value() == 0
            &&& data.extra_data matches Some(bytes) ==> header.extra_data@ == bytes@
            &&& data.extra_data is None ==> header.extra_data@.len() == 0
            &&& data.parent_hash matches Some(hash) ==> header.parent_hash == hash
            &&& data.parent_hash is None ==> crate::laws::values::all_zero(header.parent_hash.0@)
            &&& data.mix_hash matches Some(hash) ==> header.mix_hash == hash
            &&& data.mix_hash is None ==> crate::laws::values::all_zero(header.mix_hash.0@)
            &&& data.nonce matches Some(nonce) ==> header.nonce == nonce
            &&& data.nonce is None ==> crate::laws::values::all_zero(header.nonce.0@)
            &&& data.gas_limit matches Some(gas_limit) ==> header.gas_limit == gas_limit
            &&& data.gas_limit is None ==> header.gas_limit.value() == 30_000_000
            &&& header.number.value() == 0
            &&& header.gas_used.value() == 0
            &&& header.state_root == loaded.state_root
            &&& header.receipts_root == loaded.receipts_root
            &&& crate::laws::values::all_zero(header.beneficiary.0@)
            &&& crate::laws::values::all_zero(header.logs_bloom.0@)
            &&& plan.block.ommers_hash.0 == roots.0
            &&& plan.block.transactions_root.0 == roots.1
            &&& plan.writes@.len() == 3
            &&& plan.writes@[0] == StorageWrite::PutLatestBlock
            &&& plan.writes@[1] == StorageWrite::PutBlock
            &&& plan.writes@[2] matches StorageWrite::SetBaseFee { block_hash, base_fee }
            &&& block_hash.0 == crate::outside::headers::header_hash(plan.block@)
            &&& base_fee == loaded.initial_base_fee
        },
{
    law_first_header(loaded);
    let plan = next->Write_plan;
    assert(plan.block@.partial == plan.block.partial@);
    assert(plan.block@.partial == loaded.header());
}

/// Whether a start waits for such an answer.
pub open spec fn start_waits<Q, T, S, P>(
    start: GenesisStart<Q, T, S, P>,
    event: GenesisEvent<Q, T>,
) -> bool {
    match event {
        GenesisEvent::Vsdb(_) => start is Vsdb,
        GenesisEvent::Stores { tx_queues, trie_store } => start is OpenStores,
        GenesisEvent::Loaded(_) => start is Load,
        GenesisEvent::Written => start is Write,
    }
}

/// The service that a start ends with has the queues and the trie store that were
/// opened and the storage that was given; the description is read from the path that
/// was given. An answer that is not waited for changes nothing.
pub proof fn law_started_parts<Q, T, S, P>(
    storage: S,
    path: P,
    tx_queues: Q,
    trie_store: T,
    start: GenesisStart<Q, T, S, P>,
    event: GenesisEvent<Q, T>,
    next: GenesisStart<Q, T, S, P>,
)
    requires
        start.leads_to(event, next),
    ensures
        start == (GenesisStart::<Q, T, S, P>::OpenStores { storage, path }) && event
            == (GenesisEvent::Stores { tx_queues, trie_store }) ==> {
            &&& next matches GenesisStart::Load { service, path: way }
            &&& service.tx_queues == tx_queues && service.trie_store == trie_store
            &&& service.storage == storage && way == path
        },
        start is Write && event is Written ==> next == GenesisStart::<Q, T, S, P>::Done(
            start->Write_service,
        ),
        !start_waits(start, event) ==> next == start,
{
}

} // verus!
