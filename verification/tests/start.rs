use ain_evm::genesis::{
    GenesisData, GenesisEvent, GenesisStart, LoadedGenesis, StorageWrite,
};
use ain_evm::bloom::Bloom;
use ain_evm::primitives::{H160, H256, H64, U256};
use ain_evm::service::EVMCoreService;
use ain_evm::startup::{
    init_vsdb, Restoration, RestorationEvent, Segments, TrieCommand, TrieOperation, VsdbEvent,
    VsdbSetup,
};
use hex::FromHex;

type Service = EVMCoreService<u8, u16, u32>;
type Start = GenesisStart<u8, u16, u32, &'static str>;

fn path(segments: &[&str]) -> Segments {
    Segments(segments.iter().map(|segment| segment.to_string()).collect())
}

fn h256(text: &str) -> H256 {
    H256(<[u8; 32]>::from_hex(text).unwrap())
}

fn empty_root() -> H256 {
    h256("56e81f171bcc55a6ff8345e692c0f86e5b48e01b996cadc001622fb5e363b421")
}

#[test]
fn directory_that_is_there_is_not_made() {
    let setup = init_vsdb();
    assert_eq!(setup, VsdbSetup::GetDatadir);
    let setup = setup.step(VsdbEvent::Datadir("/data".to_string()));
    assert_eq!(setup, VsdbSetup::CheckDir(path(&["/data", "evm"])));
    let setup = setup.step(VsdbEvent::Exists(true));
    assert_eq!(setup, VsdbSetup::SetBaseDir(path(&["/data", "evm", ".vsdb"])));
    assert_eq!(setup.step(VsdbEvent::BaseDirSet), VsdbSetup::Done);
}

#[test]
fn directory_that_is_missing_is_made() {
    let setup = init_vsdb()
        .step(VsdbEvent::Datadir("/data".to_string()))
        .step(VsdbEvent::Exists(false));
    assert_eq!(setup, VsdbSetup::CreateDir(path(&["/data", "evm"])));
    let setup = setup.step(VsdbEvent::Exists(true));
    assert_eq!(setup, VsdbSetup::CreateDir(path(&["/data", "evm"])));
    let setup = setup.step(VsdbEvent::Created);
    assert_eq!(setup, VsdbSetup::SetBaseDir(path(&["/data", "evm", ".vsdb"])));
}

#[test]
fn service_is_restored_on_the_storage_given() {
    let restoration: Restoration<u8, u16, u32> = Service::restore(30)
        .step(RestorationEvent::Stores { tx_queues: 1, trie_store: 2 })
        .step(RestorationEvent::Vsdb(VsdbEvent::Datadir("/data".to_string())))
        .step(RestorationEvent::Vsdb(VsdbEvent::Exists(true)))
        .step(RestorationEvent::Vsdb(VsdbEvent::BaseDirSet));
    assert_eq!(restoration, Restoration::OpenStores { storage: 30 });
    let restoration = restoration.step(RestorationEvent::Stores { tx_queues: 10, trie_store: 20 });
    let service = EVMCoreService { tx_queues: 10, trie_store: 20, storage: 30 };
    assert_eq!(restoration, Restoration::Done(service));
}

#[test]
fn flush_orders_the_trie_store_to_flush() {
    let service = EVMCoreService { tx_queues: 10, trie_store: 20, storage: 30 };
    let order = || -> TrieOperation<u8> { service.flush() };
    assert_eq!(order(), TrieOperation::Issue(TrieCommand::Flush));
    assert_eq!(order().step(Ok(())), TrieOperation::Done(Ok(())));
    assert_eq!(order().step(Err(7)), TrieOperation::Done(Err(7)));
    assert_eq!(order().step(Err(7)).step(Ok(())), TrieOperation::Done(Err(7)));
}

fn loading() -> Start {
    Service::new_from_json(30, "genesis.json")
        .step(GenesisEvent::Vsdb(VsdbEvent::Datadir("/data".to_string())))
        .step(GenesisEvent::Vsdb(VsdbEvent::Exists(false)))
        .step(GenesisEvent::Vsdb(VsdbEvent::Created))
        .step(GenesisEvent::Vsdb(VsdbEvent::BaseDirSet))
        .step(GenesisEvent::Stores { tx_queues: 10, trie_store: 20 })
}

#[test]
fn chain_starts_with_setup_stores_and_description() {
    let start: Start = Service::new_from_json(30, "genesis.json");
    assert_eq!(
        start,
        GenesisStart::Vsdb { setup: VsdbSetup::GetDatadir, storage: 30, path: "genesis.json" }
    );
    let service = EVMCoreService { tx_queues: 10, trie_store: 20, storage: 30 };
    assert_eq!(loading(), GenesisStart::Load { service, path: "genesis.json" });
}

#[test]
fn first_block_of_a_bare_description_has_defaults() {
    let loaded = LoadedGenesis {
        state_root: H256([1; 32]),
        data: GenesisData {
            gas_limit: None,
            extra_data: None,
            parent_hash: None,
            mix_hash: None,
            nonce: None,
            timestamp: None,
            difficulty: None,
        },
        receipts_root: empty_root(),
        initial_base_fee: U256::from_u64(10_000_000_000),
    };
    let start = loading().step(GenesisEvent::Loaded(loaded));
    let (service, plan) = match start {
        GenesisStart::Write { service, plan } => (service, plan),
        _ => panic!("the writes are next"),
    };
    assert_eq!(service, EVMCoreService { tx_queues: 10, trie_store: 20, storage: 30 });
    let header = &plan.block.partial;
    assert_eq!(header.parent_hash, H256([0; 32]));
    assert_eq!(header.beneficiary, H160([0; 20]));
    assert_eq!(header.state_root, H256([1; 32]));
    assert_eq!(header.receipts_root, empty_root());
    assert_eq!(header.logs_bloom, Bloom([0; 256]));
    assert_eq!(header.difficulty, U256([0; 4]));
    assert_eq!(header.number, U256([0; 4]));
    assert_eq!(header.gas_limit, U256([30_000_000, 0, 0, 0]));
    assert_eq!(header.gas_used, U256([0; 4]));
    assert_eq!(header.timestamp, 0);
    assert_eq!(header.extra_data, Vec::<u8>::new());
    assert_eq!(header.mix_hash, H256([0; 32]));
    assert_eq!(header.nonce, H64([0; 8]));
    assert_eq!(plan.block.transactions_root, empty_root());
    assert_eq!(
        plan.block.ommers_hash,
        h256("1dcc4de8dec75d7aab85b567b6ccd41ad312451b948a7413f0a142fd40d49347")
    );
}

#[test]
fn first_block_of_a_known_chain_has_its_hash() {
    let loaded = LoadedGenesis {
        state_root: h256("d7f8974fb5ac78d9ac099b9ad5018bedc2ce0a72dad1827a1709da30580f0544"),
        data: GenesisData {
            gas_limit: Some(U256::from_u64(5_000)),
            extra_data: Some(
                h256("11bbe8db4e347b4e8c937c1c8370e4b5ed33adb3db69cbdb7a38e1e50b1b82fa").0.to_vec(),
            ),
            parent_hash: Some(H256([0; 32])),
            mix_hash: Some(H256([0; 32])),
            nonce: Some(H64([0, 0, 0, 0, 0, 0, 0, 0x42])),
            timestamp: Some(U256::zero()),
            difficulty: Some(U256::from_u64(0x4_0000_0000)),
        },
        receipts_root: empty_root(),
        initial_base_fee: U256::from_u64(7),
    };
    let start = loading().step(GenesisEvent::Loaded(loaded));
    let plan = match &start {
        GenesisStart::Write { plan, .. } => plan,
        _ => panic!("the writes are next"),
    };
    let block_hash = h256("d4e56740f876aef8c010b86a40d5f56745a118d0906a34e69aec8c0db1cb8fa3");
    assert_eq!(
        plan.writes,
        vec![
            StorageWrite::PutLatestBlock,
            StorageWrite::PutBlock,
            StorageWrite::SetBaseFee { block_hash, base_fee: U256::from_u64(7) },
        ]
    );
    let service = EVMCoreService { tx_queues: 10, trie_store: 20, storage: 30 };
    assert_eq!(start.step(GenesisEvent::Written), GenesisStart::Done(service));
}

#[test]
fn largest_timestamp_of_a_first_block() {
    let loaded = LoadedGenesis {
        state_root: H256([1; 32]),
        data: GenesisData {
            gas_limit: None,
            extra_data: Some(vec![5]),
            parent_hash: Some(H256([2; 32])),
            mix_hash: Some(H256([3; 32])),
            nonce: None,
            timestamp: Some(U256::from_u64(u64::MAX)),
            difficulty: None,
        },
        receipts_root: empty_root(),
        initial_base_fee: U256::from_u64(7),
    };
    match loading().step(GenesisEvent::Loaded(loaded)) {
        GenesisStart::Write { plan, .. } => {
            assert_eq!(plan.block.partial.timestamp, u64::MAX);
            assert_eq!(plan.block.partial.extra_data, vec![5]);
            assert_eq!(plan.block.partial.parent_hash, H256([2; 32]));
            assert_eq!(plan.block.partial.mix_hash, H256([3; 32]));
        }
        _ => panic!("the writes are next"),
    }
}
