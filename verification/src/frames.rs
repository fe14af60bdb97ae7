//! What following an evaluation saves: the frame of the current call, its scopes, and the variables
//! in them.

use crate::clarity::{
    ClarityValueView, EnvironmentView, FunctionIdentifierView, LocalContext, LocalContextView,
    QualifiedContractIdentifierView, SequenceData, SymbolicExpression, ValueKindView,
};
use crate::engine::State;
use crate::model::DebuggerView;
use crate::types::{PresentationHint, VariableView};
use vstd::prelude::*;

verus! {

// The call stack.

/// A function is built into the language exactly where its name starts so.
pub proof fn law_native_functions_are_named_so(function: FunctionIdentifierView)
    ensures
        crate::model::is_native(function) <==> exists|rest: Seq<char>|
            function.identifier == #[trigger] ("_native_:"@ + rest),
{
    let prefix = "_native_:"@;
    if crate::model::is_native(function) {
        let rest = function.identifier.skip(prefix.len() as int);
        assert(function.identifier =~= prefix + rest);
    }
    if exists|rest: Seq<char>| function.identifier == #[trigger] (prefix + rest) {
        let rest = choose|rest: Seq<char>| function.identifier == #[trigger] (prefix + rest);
        assert(prefix =~= (prefix + rest).subrange(0, prefix.len() as int));
    }
}

/// One more call on a stack is one more call of the user's, unless the function is built in.
pub proof fn law_calls_count_unless_native(
    stack: Seq<FunctionIdentifierView>,
    function: FunctionIdentifierView,
)
    ensures
        crate::model::user_functions(Seq::empty()).len() == 0,
        crate::model::user_functions(stack.push(function)) == if crate::model::is_native(function) {
            crate::model::user_functions(stack)
        } else {
            crate::model::user_functions(stack).push(function)
        },
{
    reveal(Seq::filter);
    assert(stack.push(function).drop_last() =~= stack);
    let user = |function: FunctionIdentifierView| !crate::model::is_native(function);
    stack.lemma_filter_push(function, user);
}

/// One more call on a stack puts the frame of its function at the front of the trace, unless the
/// function is built in; the rest of the trace stays as it is.
pub proof fn law_trace_grows_at_the_front(
    debugger: DebuggerView,
    stack: Seq<FunctionIdentifierView>,
    function: FunctionIdentifierView,
)
    ensures
        debugger.trace(Seq::empty()).len() == 0,
        debugger.trace(stack.push(function)) == if crate::model::is_native(function) {
            debugger.trace(stack)
        } else {
            seq![debugger.stack_frames[function.identifier]] + debugger.trace(stack)
        },
{
    law_calls_count_unless_native(stack, function);
    if !crate::model::is_native(function) {
        let calls = crate::model::user_functions(stack);
        assert(calls.push(function).reverse() =~= seq![function] + calls.reverse());
        assert(debugger.trace(stack.push(function)) =~= seq![
            debugger.stack_frames[function.identifier],
        ] + debugger.trace(stack));
    }
}

/// Whether the call at `index` of a stack is the innermost one of a function that is not built in.
pub open spec fn current_call(stack: Seq<FunctionIdentifierView>, index: int) -> bool {
    &&& 0 <= index < stack.len()
    &&& !crate::model::is_native(stack[index])
    &&& forall|i: int| index < i < stack.len() ==> crate::model::is_native(#[trigger] stack[i])
}

/// The last call of the user's on a stack is the innermost one. Where there is none, every function
/// on the stack is built in.
pub proof fn law_current_call_is_the_innermost(stack: Seq<FunctionIdentifierView>, index: int)
    ensures
        current_call(stack, index) ==> {
            &&& crate::model::user_functions(stack).len() > 0
            &&& crate::model::user_functions(stack).last() == stack[index]
        },
        (forall|i: int| 0 <= i < stack.len() ==> crate::model::is_native(#[trigger] stack[i]))
            <==> crate::model::user_functions(stack).len() == 0,
    decreases stack.len(),
{
    law_calls_count_unless_native(stack, arbitrary());
    if stack.len() == 0 {
        assert(stack =~= Seq::empty());
    } else {
        let outer = stack.drop_last();
        assert(stack =~= outer.push(stack.last()));
        law_calls_count_unless_native(outer, stack.last());
        law_current_call_is_the_innermost(outer, index);
        if crate::model::is_native(stack.last()) {
            assert((forall|i: int|
                0 <= i < stack.len() ==> crate::model::is_native(#[trigger] stack[i])) <==> (forall|
                i: int,
            |
                0 <= i < outer.len() ==> crate::model::is_native(#[trigger] outer[i]))) by {
                if forall|i: int| 0 <= i < outer.len() ==> crate::model::is_native(
                    #[trigger] outer[i],
                ) {
                    assert forall|i: int| 0 <= i < stack.len() implies crate::model::is_native(
                        #[trigger] stack[i],
                    ) by {
                        if i < outer.len() {
                            assert(stack[i] == outer[i]);
                        }
                    }
                }
                if forall|i: int| 0 <= i < stack.len() ==> crate::model::is_native(
                    #[trigger] stack[i],
                ) {
                    assert forall|i: int| 0 <= i < outer.len() implies crate::model::is_native(
                        #[trigger] outer[i],
                    ) by {
                        assert(outer[i] == stack[i]);
                    }
                }
            }
            if current_call(stack, index) {
                assert(index != outer.len());
                assert forall|i: int| index < i < outer.len() implies crate::model::is_native(
                    #[trigger] outer[i],
                ) by {
                    assert(outer[i] == stack[i]);
                }
            }
        } else {
            assert(!crate::model::is_native(stack[stack.len() - 1]));
        }
    }
}

// The frame.

/// Without a call of the user's, following an evaluation saves nothing.
pub proof fn law_built_in_calls_save_nothing(
    debugger: DebuggerView,
    env: EnvironmentView,
    chain: Seq<LocalContextView>,
    expr: SymbolicExpression,
)
    requires
        forall|i: int|
            0 <= i < env.call_stack.len() ==> crate::model::is_native(#[trigger] env.call_stack[i]),
    ensures
        debugger.recording(env, chain, expr) == debugger,
{
    law_current_call_is_the_innermost(env.call_stack, 0);
}

/// The source of a contract has the contract's name, and the path that was noted for it, if there is
/// one.
pub proof fn law_sources_are_named_and_placed(
    debugger: DebuggerView,
    contract: QualifiedContractIdentifierView,
)
    ensures
        ({
            let source = debugger.source_of(contract);
            &&& source.name == Some(contract.text)
            &&& debugger.contract_id_to_path.contains_key(contract.text) ==> source.path == Some(
                debugger.contract_id_to_path[contract.text],
            )
            &&& !debugger.contract_id_to_path.contains_key(contract.text) ==> source.path == Some(
                "debugger"@,
            )
            &&& source.source_reference is None
            &&& source.presentation_hint is None
            &&& source.origin is None
            &&& source.sources is None
            &&& source.adapter_data is None
            &&& source.checksums is None
        }),
{
}

/// Following an evaluation moves the frame of the current call to the expression. A function that
/// has no frame yet gets one, whose number is that of the calls on the stack plus one, whatever state
/// the adapter is in; one that has a frame keeps it but for the position. No other function's frame
/// changes.
pub proof fn law_current_frame_is_at_the_expression(
    debugger: DebuggerView,
    env: EnvironmentView,
    chain: Seq<LocalContextView>,
    expr: SymbolicExpression,
    index: int,
)
    requires
        current_call(env.call_stack, index),
    ensures
        ({
            let function = env.call_stack[index].identifier;
            let after = debugger.recording(env, chain, expr);
            let frame = after.stack_frames[function];
            let known = debugger.stack_frames.contains_key(function);
            let before = debugger.stack_frames[function];
            &&& after.stack_frames == debugger.stack_frames.insert(function, frame)
            &&& frame.line == expr.span.start_line
            &&& frame.column == expr.span.start_column
            &&& frame.end_line == Some(expr.span.end_line)
            &&& frame.end_column == Some(expr.span.end_column)
            &&& known ==> {
                &&& frame.id == before.id
                &&& frame.name == before.name
                &&& frame.source == before.source
                &&& frame.can_restart == before.can_restart
                &&& frame.instruction_pointer_reference == before.instruction_pointer_reference
                &&& frame.module_id == before.module_id
                &&& frame.presentation_hint == before.presentation_hint
            }
            &&& !known ==> {
                &&& (env.call_stack.len() as i32) < i32::MAX ==> frame.id
                    == env.call_stack.len() as i32 + 1
                &&& frame.name == function
                &&& frame.source == Some(
                    debugger.source_of(env.contract_context.contract_identifier),
                )
                &&& frame.can_restart is None
                &&& frame.instruction_pointer_reference is None
                &&& frame.module_id is None
                &&& frame.presentation_hint == Some(PresentationHint::Normal)
            }
        }),
{
    law_current_call_is_the_innermost(env.call_stack, index);
}

/// Following an evaluation saves for one frame alone: it changes no path, no action, no number, no
/// launch and no place, the scopes of no other frame, and no variables but those behind the references
/// of the frame's own scopes.
pub proof fn law_recording_saves_for_one_frame(
    debugger: DebuggerView,
    env: EnvironmentView,
    chain: Seq<LocalContextView>,
    expr: SymbolicExpression,
    index: int,
)
    requires
        current_call(env.call_stack, index),
    ensures
        ({
            let after = debugger.recording(env, chain, expr);
            let id = after.stack_frames[env.call_stack[index].identifier].id;
            &&& after == DebuggerView {
                stack_frames: after.stack_frames,
                scopes: after.scopes,
                variables: after.variables,
                ..debugger
            }
            &&& after.scopes == debugger.scopes.insert(id, after.scopes[id])
            &&& forall|reference: i32|
                !(id * 1000 <= reference <= id * 1000 + chain.len()) ==> {
                    &&& (#[trigger] after.variables.contains_key(reference))
                        == debugger.variables.contains_key(reference)
                    &&& debugger.variables.contains_key(reference) ==> after.variables[reference]
                        == debugger.variables[reference]
                }
        }),
{
    law_current_call_is_the_innermost(env.call_stack, index);
    let after = debugger.recording(env, chain, expr);
    let id = after.stack_frames[env.call_stack[index].identifier].id;
    assert(after.scopes =~= debugger.scopes.insert(id, after.scopes[id]));
}

/// Functions that get their frames at different depths get frames with different numbers.
pub proof fn law_frames_of_different_depths_differ(
    debugger: DebuggerView,
    env: EnvironmentView,
    chain: Seq<LocalContextView>,
    expr: SymbolicExpression,
    index: int,
    later: DebuggerView,
    later_env: EnvironmentView,
    later_chain: Seq<LocalContextView>,
    later_expr: SymbolicExpression,
    later_index: int,
)
    requires
        current_call(env.call_stack, index),
        current_call(later_env.call_stack, later_index),
        !debugger.stack_frames.contains_key(env.call_stack[index].identifier),
        !later.stack_frames.contains_key(later_env.call_stack[later_index].identifier),
        env.call_stack.len() < i32::MAX,
        later_env.call_stack.len() < i32::MAX,
        env.call_stack.len() != later_env.call_stack.len(),
    ensures
        debugger.recording(
            env,
            chain,
            expr,
        ).stack_frames[env.call_stack[index].identifier].id != later.recording(
            later_env,
            later_chain,
            later_expr,
        ).stack_frames[later_env.call_stack[later_index].identifier].id,
{
    law_current_frame_is_at_the_expression(debugger, env, chain, expr, index);
    law_current_frame_is_at_the_expression(later, later_env, later_chain, later_expr, later_index);
}

/// Following the evaluation in a function that another one calls for the first time leaves what is
/// shown for the caller as it was: its frame, its scopes, and the variables in them.
pub proof fn law_callers_keep_their_scopes(
    debugger: DebuggerView,
    env: EnvironmentView,
    chain: Seq<LocalContextView>,
    expr: SymbolicExpression,
    index: int,
    inner_env: EnvironmentView,
    inner_chain: Seq<LocalContextView>,
    inner_expr: SymbolicExpression,
    inner_index: int,
    scope: int,
)
    requires
        current_call(env.call_stack, index),
        current_call(inner_env.call_stack, inner_index),
        env.call_stack.len() != inner_env.call_stack.len(),
        env.call_stack.len() < i32::MAX,
        inner_env.call_stack.len() < i32::MAX,
        env.call_stack[index].identifier != inner_env.call_stack[inner_index].identifier,
        !debugger.stack_frames.contains_key(env.call_stack[index].identifier),
        !debugger.stack_frames.contains_key(inner_env.call_stack[inner_index].identifier),
        chain.len() < 1000,
        inner_chain.len() < 1000,
        debugger.can_record(env, chain, expr),
        0 <= scope <= chain.len(),
    ensures
        ({
            let caller = env.call_stack[index].identifier;
            let before = debugger.recording(env, chain, expr);
            let after = before.recording(inner_env, inner_chain, inner_expr);
            let id = before.stack_frames[caller].id;
            let reference = before.scopes[id][scope].variables_reference;
            &&& after.stack_frames[caller] == before.stack_frames[caller]
            &&& after.scopes[id] == before.scopes[id]
            &&& after.variables.contains_key(reference)
            &&& after.variables[reference] == before.variables[reference]
        }),
{
    let caller = env.call_stack[index].identifier;
    let callee = inner_env.call_stack[inner_index].identifier;
    let before = debugger.recording(env, chain, expr);
    let after = before.recording(inner_env, inner_chain, inner_expr);
    law_current_call_is_the_innermost(env.call_stack, index);
    law_current_frame_is_at_the_expression(debugger, env, chain, expr, index);
    law_current_frame_is_at_the_expression(before, inner_env, inner_chain, inner_expr, inner_index);
    law_recording_saves_for_one_frame(before, inner_env, inner_chain, inner_expr, inner_index);
    law_scopes_are_those_of_the_contexts(debugger, env, chain, expr, index);
    law_scopes_have_variables(debugger, env, chain, expr, index, scope);
}

// The scopes.

/// What is saved for the current call has one scope for each context, from the inside out, and then
/// one for the contract. They are numbered in this order from a thousand times the number of the frame
/// on, and have the frame's source. The outermost context, of depth zero, holds the arguments, the
/// others hold locals.
pub proof fn law_scopes_are_those_of_the_contexts(
    debugger: DebuggerView,
    env: EnvironmentView,
    chain: Seq<LocalContextView>,
    expr: SymbolicExpression,
    index: int,
)
    requires
        current_call(env.call_stack, index),
        debugger.can_record(env, chain, expr),
    ensures
        ({
            let after = debugger.recording(env, chain, expr);
            let frame = after.stack_frames[env.call_stack[index].identifier];
            let scopes = after.scopes[frame.id];
            let contract = env.contract_context;
            &&& after.scopes.contains_key(frame.id)
            &&& scopes.len() == chain.len() + 1
            &&& forall|i: int|
                0 <= i < scopes.len() ==> {
                    let scope = #[trigger] scopes[i];
                    &&& scope.variables_reference == frame.id * 1000 + i
                    &&& scope.source == frame.source
                    &&& scope.indexed_variables is None
                    &&& scope.line is None
                    &&& scope.column is None
                    &&& scope.end_line is None
                    &&& scope.end_column is None
                    &&& i < chain.len() ==> {
                        &&& scope.name == if chain[i].depth == 0 {
                            "Arguments"@
                        } else {
                            "Locals"@
                        }
                        &&& scope.presentation_hint == if chain[i].depth == 0 {
                            Some(PresentationHint::Arguments)
                        } else {
                            Some(PresentationHint::Locals)
                        }
                        &&& scope.named_variables is Some
                        &&& scope.named_variables->0 == chain[i].variables.len()
                            + chain[i].callable_contracts.len()
                        &&& !scope.expensive
                    }
                    &&& i == chain.len() ==> {
                        &&& scope.name == "Contract Variables"@
                        &&& scope.presentation_hint is None
                        &&& scope.named_variables == Some(contract.variables.len() as usize)
                        &&& scope.expensive
                    }
                }
        }),
{
    law_current_call_is_the_innermost(env.call_stack, index);
}

// The variables.

/// Whether a variable is shown with this name, this value and this type, and without parts of its own.
pub open spec fn is_shown(
    variable: VariableView,
    name: Seq<char>,
    value: Seq<char>,
    var_type: Seq<char>,
) -> bool {
    &&& variable.name == name
    &&& variable.value == value
    &&& variable.var_type == Some(var_type)
    &&& variable.presentation_hint is None
    &&& variable.evaluate_name is None
    &&& variable.variables_reference == 0
    &&& variable.named_variables is None
    &&& variable.indexed_variables is None
    &&& variable.memory_reference is None
}

/// Every scope that is saved for the current call has variables behind its reference.
pub proof fn law_scopes_have_variables(
    debugger: DebuggerView,
    env: EnvironmentView,
    chain: Seq<LocalContextView>,
    expr: SymbolicExpression,
    index: int,
    scope: int,
)
    requires
        current_call(env.call_stack, index),
        debugger.can_record(env, chain, expr),
        0 <= scope <= chain.len(),
    ensures
        ({
            let after = debugger.recording(env, chain, expr);
            let id = after.stack_frames[env.call_stack[index].identifier].id;
            after.variables.contains_key(after.scopes[id][scope].variables_reference)
        }),
{
    law_current_call_is_the_innermost(env.call_stack, index);
}

/// Behind the reference of the scope of a context is every name that the context binds, with the text
/// and the type of its value, and then every name in it that stands for a contract, with the contract
/// and the trait.
pub proof fn law_contexts_show_what_they_bind(
    debugger: DebuggerView,
    env: EnvironmentView,
    chain: Seq<LocalContextView>,
    expr: SymbolicExpression,
    index: int,
    scope: int,
)
    requires
        current_call(env.call_stack, index),
        debugger.can_record(env, chain, expr),
        0 <= scope < chain.len(),
    ensures
        ({
            let after = debugger.recording(env, chain, expr);
            let id = after.stack_frames[env.call_stack[index].identifier].id;
            let shown = after.variables[after.scopes[id][scope].variables_reference];
            let bound = chain[scope].variables;
            let callable = chain[scope].callable_contracts;
            &&& shown.len() == bound.len() + callable.len()
            &&& forall|i: int|
                0 <= i < bound.len() ==> is_shown(
                    #[trigger] shown[i],
                    bound[i].name,
                    bound[i].value.text,
                    crate::clarity::value_type(bound[i].value),
                )
            &&& forall|i: int|
                0 <= i < callable.len() ==> is_shown(
                    #[trigger] shown[bound.len() + i],
                    callable[i].name,
                    callable[i].contract_id.text,
                    callable[i].trait_id,
                )
        }),
{
    law_current_call_is_the_innermost(env.call_stack, index);
}

/// Behind the reference of the scope of the contract is every constant, with the text and the type of
/// its value, then every data variable, with the text of its stored value and its declared type, and
/// then every data map, without a value and with the types of its keys and values.
pub proof fn law_contracts_show_what_they_hold(
    debugger: DebuggerView,
    env: EnvironmentView,
    chain: Seq<LocalContextView>,
    expr: SymbolicExpression,
    index: int,
)
    requires
        current_call(env.call_stack, index),
        debugger.can_record(env, chain, expr),
    ensures
        ({
            let after = debugger.recording(env, chain, expr);
            let id = after.stack_frames[env.call_stack[index].identifier].id;
            let shown = after.variables[after.scopes[id][chain.len() as int].variables_reference];
            let constants = env.contract_context.variables;
            let stored = env.contract_context.meta_data_var;
            let maps = env.contract_context.meta_data_map;
            &&& shown.len() == constants.len() + stored.len() + maps.len()
            &&& forall|i: int|
                0 <= i < constants.len() ==> is_shown(
                    #[trigger] shown[i],
                    constants[i].name,
                    constants[i].value.text,
                    crate::clarity::value_type(constants[i].value),
                )
            &&& forall|i: int|
                0 <= i < stored.len() ==> is_shown(
                    #[trigger] shown[constants.len() + i],
                    stored[i].name,
                    stored[i].value.text,
                    stored[i].value_type,
                )
            &&& forall|i: int|
                0 <= i < maps.len() ==> is_shown(
                    #[trigger] shown[constants.len() + stored.len() + i],
                    maps[i].name,
                    Seq::empty(),
                    "{"@ + maps[i].key_type + ": "@ + maps[i].value_type + "}"@,
                )
        }),
{
    law_current_call_is_the_innermost(env.call_stack, index);
}

/// Values of the simple kinds have the name of their kind as their type; tuples, optionals and
/// responses have the signature that they come with.
pub proof fn law_types_are_those_of_the_kinds(value: ClarityValueView)
    ensures
        value.kind is Int ==> crate::clarity::value_type(value) == "int"@,
        value.kind is UInt ==> crate::clarity::value_type(value) == "uint"@,
        value.kind is Bool ==> crate::clarity::value_type(value) == "bool"@,
        value.kind is Principal ==> crate::clarity::value_type(value) == "principal"@,
        value.kind matches ValueKindView::Tuple(signature) ==> crate::clarity::value_type(value)
            == signature,
        value.kind matches ValueKindView::Optional(signature) ==> crate::clarity::value_type(value)
            == signature,
        value.kind matches ValueKindView::Response(signature) ==> crate::clarity::value_type(value)
            == signature,
        value.kind matches ValueKindView::Sequence(data) ==> crate::clarity::value_type(value)
            == match data {
            SequenceData::Buffer => "buff"@,
            SequenceData::String => "string"@,
            SequenceData::List => "list"@,
        },
{
}

/// The chain of a context starts with what the context itself binds, and goes on with the chain of
/// the context around it, if there is one.
pub proof fn law_chains_reach_outwards(context: LocalContext)
    ensures
        context.chain().len() > 0,
        context.chain()[0].depth == context.depth,
        context.chain()[0].variables == context.variables.deep_view(),
        context.chain()[0].callable_contracts == context.callable_contracts.deep_view(),
        context.parent is None ==> context.chain().len() == 1,
        context.parent matches Some(parent) ==> {
            &&& context.chain().len() == parent.chain().len() + 1
            &&& context.chain().skip(1) == parent.chain()
        },
        context.bindings() == context.chain()[0],
{
    if context.parent is Some {
        assert(context.chain().skip(1) =~= context.parent->0.chain());
    }
}

// Held evaluations.

/// An evaluation that the engine holds is recorded, and then told of; one that it does not hold is
/// recorded alone.
pub proof fn law_evaluations_are_recorded(
    debugger: DebuggerView,
    env: EnvironmentView,
    chain: Seq<LocalContextView>,
    expr: SymbolicExpression,
    state: State,
)
    ensures
        debugger.evaluating(env, chain, expr, None) == debugger.recording(env, chain, expr),
        debugger.evaluating(env, chain, expr, Some(state)) == debugger.recording(
            env,
            chain,
            expr,
        ).holding(env, expr, state),
{
}

/// What is saved for a frame is what following an evaluation saves for the frame of the current call.
pub proof fn law_recording_saves_the_scopes_of_the_frame(
    debugger: DebuggerView,
    env: EnvironmentView,
    chain: Seq<LocalContextView>,
    expr: SymbolicExpression,
    index: int,
)
    requires
        current_call(env.call_stack, index),
    ensures
        ({
            let after = debugger.recording(env, chain, expr);
            let frame = after.stack_frames[env.call_stack[index].identifier];
            let saved = debugger.saving_scopes(frame, chain, env.contract_context);
            &&& after.scopes == saved.scopes
            &&& after.variables == saved.variables
        }),
{
    law_current_call_is_the_innermost(env.call_stack, index);
}

} // verus!
