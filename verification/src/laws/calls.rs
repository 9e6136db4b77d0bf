//! What a call has executed, and what it ends with.
use crate::call::{CallEvent, EthCall, EthCallArgs, Execution, TxResponse};
use crate::chain::{BackendRequest, BlockHead};
use crate::error::{CallError, EVMBackendError};
use crate::primitives::H160;
use vstd::prelude::*;

verus! {

/// Whether a state and its surroundings are those of a call: of the block that was
/// found, or of the root of zeros and the number zero where none was.
pub open spec fn is_state_of_call(
    backend: BackendRequest,
    origin: H160,
    gas_limit: nat,
    found: Option<BlockHead>,
) -> bool {
    &&& found matches Some(block) ==> backend.state_root == block.state_root
        && backend.vicinity.block_number == block.number
    &&& found is None ==> crate::laws::values::all_zero(backend.state_root.0@) && backend.vicinity.block_number.value()
        == 0
    &&& backend.vicinity.origin == origin
    &&& backend.vicinity.gas_limit.value() == gas_limit
}

/// A call is executed in the state of its block, whoever makes it, with all that the
/// arguments say: what creates a contract goes on creating one. Only a caller that is
/// not given is replaced, by the address of zeros, and the caller is the origin.
pub proof fn law_call_by_answers<'a, R>(
    arguments: EthCallArgs<'a>,
    found: Option<BlockHead>,
    response: TxResponse<R>,
    error: EVMBackendError,
)
    ensures
        ({
            let asked = EthCall::<'a, R>::FindBlock(arguments).after(CallEvent::Block(found));
            &&& asked matches EthCall::Execute(execution)
            &&& is_state_of_call(
                execution.backend,
                execution.context.caller,
                arguments.gas_limit as nat,
                found,
            )
            &&& arguments.caller matches Some(caller) ==> execution.context.caller == caller
            &&& arguments.caller is None ==> crate::laws::values::all_zero(execution.context.caller.0@)
            &&& execution.context.to == arguments.to
            &&& execution.context.value == arguments.value
            &&& execution.context.data@ == arguments.data@
            &&& execution.context.gas_limit == arguments.gas_limit
            &&& execution.context.access_list == arguments.access_list
            &&& asked.after(CallEvent::Executed(Ok(response))) == EthCall::<'a, R>::Done(
                Ok(response),
            )
            &&& asked.after(CallEvent::Executed(Err(error))) == EthCall::<'a, R>::Done(
                Err(CallError::Backend(error)),
            )
        }),
{
}

/// Two calls at one block are executed in one state, whatever else sets them apart.
pub proof fn law_calls_at_one_block_share_the_state<'a, R>(
    a: EthCallArgs<'a>,
    b: EthCallArgs<'a>,
    found: Option<BlockHead>,
)
    ensures
        EthCall::<'a, R>::FindBlock(a).after(CallEvent::Block(found)) matches EthCall::Execute(x)
            && EthCall::<'a, R>::FindBlock(b).after(
            CallEvent::Block(found),
        ) matches EthCall::Execute(y) && x.backend.state_root == y.backend.state_root
            && x.backend.vicinity.block_number == y.backend.vicinity.block_number,
{
}

/// A call takes no notice of an answer that it does not wait for, and keeps its result.
pub proof fn law_call_ignores<'a, R>(
    arguments: EthCallArgs<'a>,
    execution: Execution<'a>,
    result: Result<TxResponse<R>, CallError>,
    found: Option<BlockHead>,
    reply: Result<TxResponse<R>, EVMBackendError>,
    event: CallEvent<R>,
)
    ensures
        EthCall::<'a, R>::FindBlock(arguments).after(CallEvent::Executed(reply)) == EthCall::<
            'a,
            R,
        >::FindBlock(arguments),
        EthCall::<'a, R>::Execute(execution).after(CallEvent::Block(found)) == EthCall::<
            'a,
            R,
        >::Execute(execution),
        EthCall::<'a, R>::Done(result).after(event) == EthCall::<'a, R>::Done(result),
{
}

} // verus!
