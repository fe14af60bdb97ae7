//! When the adapter can be asked for something.

use crate::clarity::{EnvironmentView, FunctionIdentifierView, LocalContextView, SymbolicExpression};
use crate::messages::{MessageKindView, RequestCommandView};
use crate::model::{DebuggerView, ReceivedView};
use vstd::prelude::*;

verus! {

/// Breakpoints need a path of a known contract, and an engine where there are any. Moves need an
/// engine, and a step over a place as well. A trace needs a place, and frames for its stack; scopes
/// need a frame for which some were saved. Any other request can be served at any time.
pub proof fn law_when_requests_can_be_served(debugger: DebuggerView, command: RequestCommandView)
    ensures
        command matches RequestCommandView::SetBreakpoints(arguments) ==> (debugger.can_serve(
            command,
        ) <==> (arguments.breakpoints is None || (arguments.source.path is Some
            && debugger.path_to_contract_id.contains_key(arguments.source.path->0) && (
        arguments.breakpoints->0.len() == 0 || debugger.started)))),
        command is StepIn || command is StepOut || command is Continue || command is Pause
            || command is Disconnect ==> debugger.can_serve(command) == debugger.started,
        command is Next ==> debugger.can_serve(command) == (debugger.started
            && debugger.current is Some),
        command is StackTrace ==> debugger.can_serve(command) == (debugger.current is Some
            && debugger.can_trace(debugger.current->0.stack)),
        command matches RequestCommandView::Scopes(arguments) ==> debugger.can_serve(command)
            == debugger.scopes.contains_key(arguments.frame_id),
        command is Initialize || command is Launch || command is ConfigurationDone
            || command is SetExceptionBreakpoints || command is Threads || command is Variables
            || command is Unsupported ==> debugger.can_serve(command),
{
}

/// A stack can be traced where each call on it has a frame, but for those of built-in functions.
pub proof fn law_when_stacks_can_be_traced(
    debugger: DebuggerView,
    stack: Seq<FunctionIdentifierView>,
    function: FunctionIdentifierView,
)
    ensures
        debugger.can_trace(Seq::empty()),
        debugger.can_trace(stack.push(function)) <==> debugger.can_trace(stack) && (
        crate::model::is_native(function) || debugger.stack_frames.contains_key(
            function.identifier,
        )),
{
    let longer = stack.push(function);
    if debugger.can_trace(longer) {
        assert forall|i: int|
            0 <= i < stack.len() && !crate::model::is_native(
                #[trigger] stack[i],
            ) implies debugger.stack_frames.contains_key(stack[i].identifier) by {
            assert(longer[i] == stack[i]);
        }
        assert(longer[stack.len() as int] == function);
    }
    if debugger.can_trace(stack) && (crate::model::is_native(function)
        || debugger.stack_frames.contains_key(function.identifier)) {
        assert forall|i: int|
            0 <= i < longer.len() && !crate::model::is_native(
                #[trigger] longer[i],
            ) implies debugger.stack_frames.contains_key(longer[i].identifier) by {
            if i < stack.len() {
                assert(longer[i] == stack[i]);
            }
        }
    }
}

/// What cannot be read, and the end of the stream, can be taken at any time. A message needs numbers
/// for its answers, and a request must be one that can be served.
pub proof fn law_when_input_can_be_taken(debugger: DebuggerView, received: ReceivedView)
    ensures
        !(received is Message) ==> debugger.can_take(received),
        received matches ReceivedView::Message(message) ==> (debugger.can_take(received) <==> (
        debugger.receiving(message).send_seq <= i64::MAX && (
        message.message matches MessageKindView::Request(command) ==> debugger.can_serve(
            command,
        )))),
{
}

/// An evaluation can be followed where the numbers of the scopes of the current call, which go from a
/// thousand times the number of its frame to as many more as there are contexts, are numbers of the
/// protocol, and so is the number of a new frame; and where the names in each context can be counted.
/// Without a call of the user's it can always be followed.
pub proof fn law_when_evaluations_can_be_followed(
    debugger: DebuggerView,
    env: EnvironmentView,
    chain: Seq<LocalContextView>,
    expr: SymbolicExpression,
    index: int,
)
    ensures
        (forall|i: int|
            0 <= i < env.call_stack.len() ==> crate::model::is_native(#[trigger] env.call_stack[i]))
            ==> debugger.can_record(env, chain, expr),
        crate::frames::current_call(env.call_stack, index) ==> ({
            let function = env.call_stack[index].identifier;
            let known = debugger.stack_frames.contains_key(function);
            let id = if known {
                debugger.stack_frames[function].id as int
            } else {
                env.call_stack.len() as i32 + 1
            };
            debugger.can_record(env, chain, expr) <==> {
                &&& id <= i32::MAX
                &&& i32::MIN <= id * 1000
                &&& id * 1000 + chain.len() <= i32::MAX
                &&& forall|i: int|
                    0 <= i < chain.len() ==> (#[trigger] chain[i]).variables.len()
                        + chain[i].callable_contracts.len() <= usize::MAX
            }
        }),
{
    crate::frames::law_current_call_is_the_innermost(env.call_stack, index);
}

/// A scope's reference is a thousand times the number of its frame plus its place among the scopes.
pub proof fn law_references_count_from_the_frame(frame_id: i32, index: int)
    ensures
        crate::model::scope_reference(frame_id, index) == frame_id * 1000 + index,
{
}

/// The end of a program takes three messages, and where there are events one more for each of them
/// and one for their heading.
pub proof fn law_messages_at_the_end(events: nat)
    ensures
        events == 0 ==> DebuggerView::messages_at_end(events) == 3,
        events > 0 ==> DebuggerView::messages_at_end(events) == 3 + 1 + events,
{
}

} // verus!
