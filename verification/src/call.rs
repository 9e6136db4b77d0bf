//! Calls that are executed without being put into a block.
use crate::chain::{block_number_of, state_root_of, BackendRequest, BlockHead, Vicinity};
use crate::error::{CallError, EVMBackendError};
use crate::host::Host;
use crate::primitives::{H160, U256};
use crate::service::EVMCoreService;
use crate::transaction::{AccessEntry, AccessList};
use vstd::prelude::*;

verus! {

/// The arguments of a call.
#[derive(Debug, PartialEq, Eq)]
pub struct EthCallArgs<'a> {
    pub caller: Option<H160>,
    pub to: Option<H160>,
    pub value: U256,
    pub data: &'a [u8],
    pub gas_limit: u64,
    pub access_list: AccessList,
    pub block_number: U256,
}

/// What the executor is told to execute.
#[derive(Debug, PartialEq, Eq)]
pub struct ExecutorContext<'a> {
    pub caller: H160,
    pub to: Option<H160>,
    pub value: U256,
    pub data: &'a [u8],
    pub gas_limit: u64,
    pub access_list: AccessList,
}

/// What an [`ExecutorContext`] holds.
#[verifier::ext_equal]
pub struct ContextFields {
    pub caller: H160,
    pub to: Option<H160>,
    pub value: U256,
    pub data: Seq<u8>,
    pub gas_limit: u64,
    pub access_list: Seq<AccessEntry>,
}

impl<'a> View for ExecutorContext<'a> {
    type V = ContextFields;

    open spec fn view(&self) -> ContextFields {
        ContextFields {
            caller: self.caller,
            to: self.to,
            value: self.value,
            data: self.data@,
            gas_limit: self.gas_limit,
            access_list: crate::transaction::access_entries(self.access_list@),
        }
    }
}

/// An order to execute a context in a state.
#[derive(Debug, PartialEq, Eq)]
pub struct Execution<'a> {
    pub backend: BackendRequest,
    pub context: ExecutorContext<'a>,
}

/// What an [`Execution`] holds.
#[verifier::ext_equal]
pub struct ExecutionFields {
    pub backend: BackendRequest,
    pub context: ContextFields,
}

impl<'a> View for Execution<'a> {
    type V = ExecutionFields;

    open spec fn view(&self) -> ExecutionFields {
        ExecutionFields { backend: self.backend, context: self.context@ }
    }
}

/// The result of an execution: the gas that it used, and all else that the
/// executor tells of it.
#[derive(Debug, PartialEq, Eq)]
pub struct TxResponse<R> {
    pub used_gas: u64,
    pub rest: R,
}

/// The caller, or the address of zeros where none is given.
pub open spec fn origin_of(caller: Option<H160>) -> H160 {
    match caller {
        Some(address) => address,
        None => H160::zeros(),
    }
}

/// The state and the surroundings of a call: those of the block that was found,
/// or the root of zeros and the number zero where no block was found.
pub open spec fn call_backend(
    caller: Option<H160>,
    gas_limit: u64,
    found: Option<BlockHead>,
) -> BackendRequest {
    BackendRequest {
        state_root: crate::chain::root_of(found),
        vicinity: Vicinity {
            block_number: crate::chain::number_of(found),
            origin: origin_of(caller),
            gas_limit: U256::of(gas_limit as nat),
        },
    }
}

/// The order that a call comes to once its block has been looked for.
pub open spec fn execution_of<'a>(arguments: EthCallArgs<'a>, found: Option<BlockHead>) -> Execution<
    'a,
> {
    Execution {
        backend: call_backend(arguments.caller, arguments.gas_limit, found),
        context: ExecutorContext {
            caller: origin_of(arguments.caller),
            to: arguments.to,
            value: arguments.value,
            data: arguments.data,
            gas_limit: arguments.gas_limit,
            access_list: arguments.access_list,
        },
    }
}

/// Computes [`execution_of`].
pub fn execution_at<'a>(arguments: EthCallArgs<'a>, found: Option<BlockHead>) -> (r: Execution<'a>)
    ensures
        r == execution_of(arguments, found),
{
    let caller = match arguments.caller {
        Some(address) => address,
        None => H160::default(),
    };
    Execution {
        backend: BackendRequest {
            state_root: state_root_of(found),
            vicinity: Vicinity {
                block_number: block_number_of(found),
                origin: caller,
                gas_limit: U256::from_u64(arguments.gas_limit),
            },
        },
        context: ExecutorContext {
            caller,
            to: arguments.to,
            value: arguments.value,
            data: arguments.data,
            gas_limit: arguments.gas_limit,
            access_list: arguments.access_list,
        },
    }
}

/// The result of a call, given what the executor replied.
pub open spec fn call_result<R>(reply: Result<TxResponse<R>, EVMBackendError>) -> Result<
    TxResponse<R>,
    CallError,
> {
    match reply {
        Ok(response) => Ok(response),
        Err(e) => Err(CallError::Backend(e)),
    }
}

/// Computes [`call_result`].
pub fn finish_call<R>(reply: Result<TxResponse<R>, EVMBackendError>) -> (r: Result<
    TxResponse<R>,
    CallError,
>)
    ensures
        r == call_result(reply),
{
    match reply {
        Ok(response) => Ok(response),
        Err(e) => Err(CallError::Backend(e)),
    }
}

/// A call on its way.
#[derive(Debug, PartialEq, Eq)]
pub enum EthCall<'a, R> {
    /// Waits for the block with the number in the arguments.
    FindBlock(EthCallArgs<'a>),
    /// Waits for the execution of the order.
    Execute(Execution<'a>),
    /// The call has ended.
    Done(Result<TxResponse<R>, CallError>),
}

/// An answer that an [`EthCall`] waits for.
#[derive(Debug, PartialEq, Eq)]
pub enum CallEvent<R> {
    Block(Option<BlockHead>),
    Executed(Result<TxResponse<R>, EVMBackendError>),
}

impl<'a, R> EthCall<'a, R> {
    /// Where the call stands after an answer. An answer that the call does not
    /// wait for changes nothing.
    pub open spec fn after(self, event: CallEvent<R>) -> Self {
        match (self, event) {
            (EthCall::FindBlock(arguments), CallEvent::Block(found)) => EthCall::Execute(
                execution_of(arguments, found),
            ),
            (EthCall::Execute(_), CallEvent::Executed(reply)) => EthCall::Done(call_result(reply)),
            _ => self,
        }
    }

    /// Takes an answer.
    pub fn step(self, event: CallEvent<R>) -> (r: Self)
        ensures
            r == self.after(event),
    {
        match (self, event) {
            (EthCall::FindBlock(arguments), CallEvent::Block(found)) => EthCall::Execute(
                execution_at(arguments, found),
            ),
            (EthCall::Execute(_), CallEvent::Executed(reply)) => EthCall::Done(finish_call(reply)),
            (call, _) => call,
        }
    }
}

impl<Q, T, S> EVMCoreService<Q, T, S> {
    /// Calls a contract, or creates one, in the state of a block.
    pub fn call<'a, R>(&self, arguments: EthCallArgs<'a>) -> (r: EthCall<'a, R>)
        ensures
            r == EthCall::<'a, R>::FindBlock(arguments),
            forall|host: Host<R>| #[trigger]
                crate::host::run(r, host, 2) == EthCall::<'a, R>::Done(host.called(arguments)),
    {
        proof {
            assert forall|host: Host<R>| #[trigger]
                crate::host::run(EthCall::<'a, R>::FindBlock(arguments), host, 2) == EthCall::<
                    'a,
                    R,
                >::Done(host.called(arguments)) by {
                crate::laws::law_call(host, arguments);
            }
        }
        EthCall::FindBlock(arguments)
    }
}

} // verus!
