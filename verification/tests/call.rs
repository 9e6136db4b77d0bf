use ain_evm::call::{
    CallEvent, EthCall, EthCallArgs, Execution, ExecutorContext, TxResponse,
};
use ain_evm::chain::{BackendRequest, BlockHead, Vicinity};
use ain_evm::error::{CallError, EVMBackendError};
use ain_evm::primitives::{H160, H256, U256};
use ain_evm::service::EVMCoreService;
use ain_evm::transaction::AccessListItem;

fn service() -> EVMCoreService<(), (), ()> {
    EVMCoreService { tx_queues: (), trie_store: (), storage: () }
}

fn list() -> Vec<AccessListItem> {
    vec![AccessListItem { address: H160([2; 20]), storage_keys: vec![H256([3; 32])] }]
}

fn arguments(caller: Option<H160>) -> EthCallArgs<'static> {
    EthCallArgs {
        caller,
        to: Some(H160([9; 20])),
        value: U256::from_u64(12),
        data: &[1, 2, 3],
        gas_limit: 77,
        access_list: list(),
        block_number: U256::from_u64(40),
    }
}

fn expected(caller: H160, state_root: H256, block_number: u64) -> Execution<'static> {
    Execution {
        backend: BackendRequest {
            state_root,
            vicinity: Vicinity {
                block_number: U256::from_u64(block_number),
                origin: caller,
                gas_limit: U256::from_u64(77),
            },
        },
        context: ExecutorContext {
            caller,
            to: Some(H160([9; 20])),
            value: U256::from_u64(12),
            data: &[1, 2, 3],
            gas_limit: 77,
            access_list: list(),
        },
    }
}

#[test]
fn call_is_executed_at_its_block() {
    let head = BlockHead { number: U256::from_u64(40), state_root: H256([6; 32]) };
    let call: EthCall<u8> = service().call(arguments(Some(H160([5; 20]))));
    assert_eq!(call, EthCall::FindBlock(arguments(Some(H160([5; 20])))));
    let call = call.step(CallEvent::Block(Some(head)));
    assert_eq!(call, EthCall::Execute(expected(H160([5; 20]), H256([6; 32]), 40)));
    let call = call.step(CallEvent::Executed(Ok(TxResponse { used_gas: 55, rest: 1 })));
    assert_eq!(call, EthCall::Done(Ok(TxResponse { used_gas: 55, rest: 1 })));
}

#[test]
fn call_at_an_unknown_block_has_no_fallback() {
    let call: EthCall<u8> = service().call(arguments(None)).step(CallEvent::Block(None));
    assert_eq!(call, EthCall::Execute(expected(H160([0; 20]), H256([0; 32]), 0)));
}

#[test]
fn call_without_a_state_fails() {
    let error = || EVMBackendError::Other("trie creation failed".to_string());
    let call: EthCall<u8> = service()
        .call(arguments(None))
        .step(CallEvent::Block(None))
        .step(CallEvent::Executed(Err(error())));
    assert_eq!(call, EthCall::Done(Err(CallError::Backend(error()))));
    assert_eq!(
        CallError::Backend(error()).written("unused"),
        "------ Could not restore backend trie creation failed"
    );
}

#[test]
fn call_ignores_what_it_does_not_wait_for() {
    let call: EthCall<u8> = service().call(arguments(None));
    let call = call.step(CallEvent::Executed(Ok(TxResponse { used_gas: 1, rest: 0 })));
    assert_eq!(call, EthCall::FindBlock(arguments(None)));
}
