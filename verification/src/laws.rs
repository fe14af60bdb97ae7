//! What holds of the adapter as a whole.

use crate::clarity::{
    ContractContextView, EnvironmentView, FunctionIdentifierView, LocalContextView,
    SymbolicExpression,
};
use crate::engine::{ActionView, State};
use crate::messages::{
    Category, EventBodyView, LaunchRequestArgumentsView, MessageKindView, ProtocolMessageView,
    RequestCommandView, ResponseBodyView, ResponseView, ScopesArgumentsView, ScopesResponseView,
    ThreadsResponseView, VariablesArgumentsView, VariablesResponseView,
};
use crate::model::DebuggerView;
use crate::types::{ScopeView, SourceBreakpointView, SourceView, StackFrameView};
use vstd::prelude::*;

verus! {

// The numbers of messages.

/// The messages among some actions, in order.
pub open spec fn messages(actions: Seq<ActionView>) -> Seq<ProtocolMessageView>
    decreases actions.len(),
{
    if actions.len() == 0 {
        Seq::empty()
    } else {
        match actions.last() {
            ActionView::Send(message) => messages(actions.drop_last()).push(message),
            _ => messages(actions.drop_last()),
        }
    }
}

/// How many messages have been handed over, over the life of the adapter.
pub open spec fn handed_over(debugger: DebuggerView) -> int {
    debugger.send_seq - messages(debugger.actions).len()
}

/// Whether the messages that are yet to be sent carry consecutive numbers, from that of the messages
/// handed over so far up to the next one.
pub open spec fn numbered(debugger: DebuggerView) -> bool {
    let pending = messages(debugger.actions);
    forall|i: int|
        0 <= i < pending.len() ==> (#[trigger] pending[i]).seq == handed_over(debugger) + i
}

/// Whether `after` has the numbers of `before` in order, with none lost.
pub open spec fn keeps_numbers(before: DebuggerView, after: DebuggerView) -> bool {
    &&& numbered(before) ==> numbered(after)
    &&& handed_over(after) == handed_over(before)
}

proof fn lemma_doing_keeps_numbers(debugger: DebuggerView, action: ActionView)
    requires
        !(action is Send),
    ensures
        keeps_numbers(debugger, debugger.doing(action)),
{
    assert(debugger.doing(action).actions.drop_last() =~= debugger.actions);
}

proof fn lemma_sending_keeps_numbers(debugger: DebuggerView, message: MessageKindView)
    ensures
        keeps_numbers(debugger, debugger.sending(message)),
{
    assert(debugger.sending(message).actions.drop_last() =~= debugger.actions);
}

proof fn lemma_steps_keep_numbers()
    ensures
        forall|debugger: DebuggerView, action: ActionView|
            !(action is Send) ==> keeps_numbers(debugger, #[trigger] debugger.doing(action)),
        forall|debugger: DebuggerView, message: MessageKindView|
            keeps_numbers(debugger, #[trigger] debugger.sending(message)),
{
    assert forall|debugger: DebuggerView, action: ActionView| !(action is Send) implies keeps_numbers(
        debugger,
        #[trigger] debugger.doing(action),
    ) by {
        lemma_doing_keeps_numbers(debugger, action);
    }
    assert forall|debugger: DebuggerView, message: MessageKindView| keeps_numbers(
        debugger,
        #[trigger] debugger.sending(message),
    ) by {
        lemma_sending_keeps_numbers(debugger, message);
    }
}

proof fn lemma_printing_all_keeps_numbers(
    debugger: DebuggerView,
    category: Category,
    texts: Seq<Seq<char>>,
)
    ensures
        keeps_numbers(debugger, debugger.printing_all(category, texts)),
    decreases texts.len(),
{
    lemma_steps_keep_numbers();
    if texts.len() > 0 {
        lemma_printing_all_keeps_numbers(debugger, category, texts.drop_last());
    }
}

/// Serving a request numbers its messages without a gap.
pub proof fn law_requests_keep_numbers(
    debugger: DebuggerView,
    seq: i64,
    command: RequestCommandView,
)
    ensures
        keeps_numbers(debugger, debugger.handling(seq, command)),
{
    lemma_steps_keep_numbers();
}

/// Serving any message of the client numbers the answers without a gap.
pub proof fn law_messages_keep_numbers(debugger: DebuggerView, message: ProtocolMessageView)
    ensures
        keeps_numbers(debugger, debugger.receiving(message)),
{
    lemma_steps_keep_numbers();
    match message.message {
        MessageKindView::Request(command) => {
            law_requests_keep_numbers(debugger, message.seq as i64, command);
        },
        _ => {},
    }
}

/// Reporting the breakpoints that the engine has taken numbers the answer without a gap.
pub proof fn law_breakpoints_keep_numbers(
    debugger: DebuggerView,
    seq: i64,
    source: SourceView,
    requested: Seq<SourceBreakpointView>,
    ids: Seq<usize>,
)
    ensures
        keeps_numbers(debugger, debugger.reporting_breakpoints(seq, source, requested, ids)),
{
    lemma_steps_keep_numbers();
}

/// Following the evaluation of an expression numbers the events without a gap.
pub proof fn law_evaluation_keeps_numbers(
    debugger: DebuggerView,
    env: EnvironmentView,
    chain: Seq<LocalContextView>,
    expr: SymbolicExpression,
    held: Option<State>,
)
    ensures
        keeps_numbers(debugger, debugger.evaluating(env, chain, expr, held)),
{
    lemma_steps_keep_numbers();
}

/// Telling that execution is held numbers the event without a gap.
pub proof fn law_hold_keeps_numbers(
    debugger: DebuggerView,
    env: EnvironmentView,
    expr: SymbolicExpression,
    state: State,
)
    ensures
        keeps_numbers(debugger, debugger.holding(env, expr, state)),
{
    lemma_steps_keep_numbers();
}

/// Texts for the user are numbered without a gap.
pub proof fn law_output_keeps_numbers(
    debugger: DebuggerView,
    category: Category,
    text: Seq<char>,
)
    ensures
        keeps_numbers(debugger, debugger.printing(category, text)),
{
    lemma_steps_keep_numbers();
}

/// Telling of the end of the program numbers the events without a gap, and takes as many of them as
/// was announced.
pub proof fn law_end_keeps_numbers(
    debugger: DebuggerView,
    value: Seq<char>,
    events: Seq<Seq<char>>,
)
    ensures
        keeps_numbers(debugger, debugger.completing(value, events)),
        debugger.completing(value, events).send_seq == debugger.send_seq
            + DebuggerView::messages_at_end(events.len()),
{
    lemma_steps_keep_numbers();
    let ended = debugger.printing(Category::Console, "Execution completed.\n"@).printing(
        Category::Console,
        "\nEvents emitted:\n"@,
    );
    let lines = events.map_values(|event: Seq<char>| event + "\n"@);
    lemma_printing_all_keeps_numbers(ended, Category::Stdout, lines);
    crate::lemmas::lemma_printing_all_len(ended, Category::Stdout, lines);
}

/// Handing the actions over leaves no message behind, and counts those that were handed over.
pub proof fn law_handover_keeps_numbers(debugger: DebuggerView)
    ensures
        numbered(debugger.handing_over()),
        handed_over(debugger.handing_over()) == debugger.send_seq,
        handed_over(debugger.handing_over()) == handed_over(debugger) + messages(
            debugger.actions,
        ).len(),
{
}

// Answers.

/// Whether one of the messages that `after` has over `before` answers the request `seq`.
pub open spec fn answers(
    before: DebuggerView,
    after: DebuggerView,
    seq: i64,
    success: bool,
) -> bool {
    exists|i: int|
        before.actions.len() <= i < after.actions.len() && (
        #[trigger] after.actions[i] matches ActionView::Send(message) && message.message matches MessageKindView::Response(
            response,
        ) && response.request_seq == seq && response.success == success)
}

/// Whether a request is refused: because the adapter does not serve it, or because it lacks what a
/// launch needs.
pub open spec fn refused(command: RequestCommandView) -> bool {
    match command {
        RequestCommandView::Launch(arguments) => arguments.manifest is None
            || arguments.expression is None,
        RequestCommandView::Unsupported => true,
        _ => false,
    }
}

/// Whether the answer to a request has to wait: that to a launch until the client is done
/// configuring, that to a request for breakpoints until the engine has taken them.
pub open spec fn deferred(command: RequestCommandView) -> bool {
    match command {
        RequestCommandView::Launch(_) => !refused(command),
        RequestCommandView::SetBreakpoints(arguments) => arguments.breakpoints is Some,
        _ => false,
    }
}

/// A request is answered at once, successfully unless it is refused, or its answer has to wait. What
/// was to be done before stays to be done, first.
pub proof fn law_requests_are_answered(
    debugger: DebuggerView,
    seq: i64,
    command: RequestCommandView,
)
    ensures
        debugger.actions.is_prefix_of(debugger.handling(seq, command).actions),
        !deferred(command) ==> answers(
            debugger,
            debugger.handling(seq, command),
            seq,
            !refused(command),
        ),
{
    let after = debugger.handling(seq, command);
    let start = debugger.actions.len() as int;
    assert(debugger.actions =~= after.actions.take(start));
    if !deferred(command) {
        assert(after.actions[start] is Send || after.actions[start + 1] is Send);
    }
}

/// Refusing a request sends one message and changes nothing else.
pub proof fn law_refusal_changes_nothing(
    debugger: DebuggerView,
    seq: i64,
    command: RequestCommandView,
)
    requires
        refused(command),
    ensures
        ({
            let after = debugger.handling(seq, command);
            &&& after == DebuggerView { actions: after.actions, send_seq: after.send_seq, ..debugger }
            &&& after.send_seq == debugger.send_seq + 1
            &&& after.actions.len() == debugger.actions.len() + 1
        }),
{
}

/// The reply to an order of breakpoints answers the request of the order, with one breakpoint for
/// each that was asked for: at its place, under the number that the engine gave it.
pub proof fn law_breakpoints_are_answered(
    debugger: DebuggerView,
    seq: i64,
    source: SourceView,
    requested: Seq<SourceBreakpointView>,
    ids: Seq<usize>,
)
    requires
        ids.len() == requested.len(),
    ensures
        ({
            let after = debugger.reporting_breakpoints(seq, source, requested, ids);
            let listed = crate::model::taken_breakpoints(source, requested, ids);
            &&& answers(debugger, after, seq, true)
            &&& listed.len() == requested.len()
            &&& forall|i: int|
                0 <= i < listed.len() ==> {
                    &&& (#[trigger] listed[i]).id == Some(ids[i])
                    &&& listed[i].line == Some(requested[i].line)
                    &&& listed[i].column == requested[i].column
                    &&& listed[i].source == Some(source)
                }
        }),
{
    let after = debugger.reporting_breakpoints(seq, source, requested, ids);
    assert(after.actions[debugger.actions.len() as int] is Send);
}

// The launch.

/// Whether `after` has, over `before`, a successful answer of this content to the request `seq`.
pub open spec fn serves(
    before: DebuggerView,
    after: DebuggerView,
    seq: i64,
    body: ResponseBodyView,
) -> bool {
    exists|i: int|
        before.actions.len() <= i < after.actions.len() && (
        #[trigger] after.actions[i] matches ActionView::Send(message) && message.message
            == MessageKindView::Response(
            ResponseView { request_seq: seq, success: true, message: None, body: Some(body) },
        ))
}

/// A launch with all that it needs is remembered, so that it can be picked up and answered later.
pub proof fn law_launch_is_remembered(
    debugger: DebuggerView,
    seq: i64,
    arguments: LaunchRequestArgumentsView,
)
    requires
        arguments.manifest is Some,
        arguments.expression is Some,
    ensures
        ({
            let after = debugger.handling(seq, RequestCommandView::Launch(arguments));
            &&& after.started
            &&& after.launched == Some((arguments.manifest->0, arguments.expression->0))
            &&& after.launch_seq == seq
            &&& after.init_complete == debugger.init_complete
            &&& after.actions == debugger.actions.push(
                ActionView::Start(arguments.expression->0),
            )
            &&& after.send_seq == debugger.send_seq
        }),
{
}

/// Which launch is remembered changes by launches alone, and whether the first request for the threads
/// is yet to come by such requests alone; an engine that has been started stays started.
pub proof fn law_other_requests_keep_the_launch(
    debugger: DebuggerView,
    seq: i64,
    command: RequestCommandView,
)
    requires
        !(command is Launch),
        !(command is Threads),
    ensures
        debugger.handling(seq, command).launch_seq == debugger.launch_seq,
        debugger.handling(seq, command).launched == debugger.launched,
        debugger.handling(seq, command).init_complete == debugger.init_complete,
        debugger.handling(seq, command).started == debugger.started,
{
}

/// The end of configuration answers the launch that was remembered, under the number of the launch.
pub proof fn law_configuration_done_answers_launch(debugger: DebuggerView, seq: i64)
    ensures
        ({
            let after = debugger.handling(seq, RequestCommandView::ConfigurationDone);
            &&& serves(debugger, after, seq, ResponseBodyView::ConfigurationDone)
            &&& serves(debugger, after, debugger.launch_seq, ResponseBodyView::Launch)
            &&& after.send_seq == debugger.send_seq + 2
        }),
{
    let after = debugger.handling(seq, RequestCommandView::ConfigurationDone);
    assert(after.actions[debugger.actions.len() as int] is Send);
    assert(after.actions[debugger.actions.len() as int + 1] is Send);
}

/// The first request for the threads answers the launch that was remembered, and tells of a stop at
/// the start.
pub proof fn law_first_threads_request_answers_launch(debugger: DebuggerView, seq: i64)
    requires
        !debugger.init_complete,
    ensures
        ({
            let after = debugger.handling(seq, RequestCommandView::Threads);
            &&& after.init_complete
            &&& serves(debugger, after, debugger.launch_seq, ResponseBodyView::Launch)
            &&& after.send_seq == debugger.send_seq + 3
        }),
{
    let after = debugger.handling(seq, RequestCommandView::Threads);
    assert(after.actions[debugger.actions.len() as int + 1] is Send);
}

/// Later requests for the threads only list them: the one thread that there is.
pub proof fn law_later_threads_requests_list(debugger: DebuggerView, seq: i64)
    requires
        debugger.init_complete,
    ensures
        debugger.handling(seq, RequestCommandView::Threads) == debugger.serving(
            seq,
            ResponseBodyView::Threads(
                ThreadsResponseView { threads: seq![crate::model::main_thread()] },
            ),
        ),
{
}

// Letting execution go on.

/// Whether an action moves execution on.
pub open spec fn moves(action: ActionView) -> bool {
    match action {
        ActionView::StepIn
        | ActionView::Finish
        | ActionView::StepOver(_)
        | ActionView::ContinueExecution
        | ActionView::Pause
        | ActionView::Quit => true,
        _ => false,
    }
}

/// A request that lets execution go on tells the engine how, once, and then answers the client; any
/// other request leaves the engine where it is.
pub proof fn law_resuming_moves_the_engine(
    debugger: DebuggerView,
    seq: i64,
    command: RequestCommandView,
)
    ensures
        ({
            let start = debugger.actions.len() as int;
            let after = debugger.handling(seq, command).actions;
            &&& crate::model::resumes(command) ==> {
                &&& after.len() == start + 2
                &&& moves(after[start])
                &&& answers(debugger, debugger.handling(seq, command), seq, true)
            }
            &&& !crate::model::resumes(command) ==> forall|i: int|
                start <= i < after.len() ==> !moves(#[trigger] after[i])
        }),
{
    let after = debugger.handling(seq, command).actions;
    let start = debugger.actions.len() as int;
    if crate::model::resumes(command) {
        assert(after[start + 1] is Send);
    }
}

/// A step over asked for while execution is held steps over the very expression that it is held at.
pub proof fn law_next_steps_over_the_held_expression(
    debugger: DebuggerView,
    env: EnvironmentView,
    chain: Seq<LocalContextView>,
    expr: SymbolicExpression,
    state: State,
    seq: i64,
)
    requires
        debugger.started,
    ensures
        ({
            let held = debugger.evaluating(env, chain, expr, Some(state));
            let start = held.actions.len() as int;
            &&& held.can_serve(RequestCommandView::Next)
            &&& held.handling(seq, RequestCommandView::Next).actions[start]
                == ActionView::StepOver(expr.id)
        }),
{
}

/// Following an evaluation that the engine does not hold sends nothing and asks for nothing.
pub proof fn law_free_evaluation_is_silent(
    debugger: DebuggerView,
    env: EnvironmentView,
    chain: Seq<LocalContextView>,
    expr: SymbolicExpression,
)
    ensures
        debugger.evaluating(env, chain, expr, None).actions == debugger.actions,
        debugger.evaluating(env, chain, expr, None).send_seq == debugger.send_seq,
        debugger.evaluating(env, chain, expr, None).current == debugger.current,
{
}

/// The client hears of a held evaluation by exactly one event: that the adapter is initialized, where
/// nothing has been evaluated yet, and else a stop.
pub proof fn law_held_evaluation_sends_one_event(
    debugger: DebuggerView,
    env: EnvironmentView,
    chain: Seq<LocalContextView>,
    expr: SymbolicExpression,
    state: State,
)
    ensures
        debugger.evaluating(env, chain, expr, Some(state)).send_seq == debugger.send_seq + 1,
        debugger.evaluating(env, chain, expr, Some(state)).actions.len() == debugger.actions.len()
            + 1,
        (crate::model::held_event(state) == EventBodyView::Initialized) == (state == State::Start),
        (crate::model::held_event(state) is Stopped) == (state != State::Start),
{
}

// Frames.

/// The frames in a trace are those of the calls that are not calls of built-in functions, from the
/// innermost to the outermost.
pub proof fn law_trace_is_innermost_first(
    debugger: DebuggerView,
    stack: Seq<FunctionIdentifierView>,
)
    ensures
        ({
            let calls = crate::model::user_functions(stack);
            let frames = debugger.trace(stack);
            &&& frames.len() == calls.len()
            &&& frames.len() <= stack.len()
            &&& forall|i: int|
                0 <= i < frames.len() ==> {
                    &&& !crate::model::is_native(calls[calls.len() - 1 - i])
                    &&& #[trigger] frames[i] == debugger.stack_frames[calls[calls.len() - 1
                        - i].identifier]
                }
        }),
{
    let user = |function: FunctionIdentifierView| !crate::model::is_native(function);
    broadcast use vstd::seq_lib::group_filter_ensures;
    let calls = crate::model::user_functions(stack);
    let frames = debugger.trace(stack);
    assert forall|i: int| 0 <= i < frames.len() implies {
        &&& !crate::model::is_native(calls[calls.len() - 1 - i])
        &&& #[trigger] frames[i] == debugger.stack_frames[calls[calls.len() - 1 - i].identifier]
    } by {
        assert(user(calls[calls.len() - 1 - i]));
    }
}

/// While execution is held in a function, a trace starts with the frame of that function, at the
/// expression that is about to be evaluated.
pub proof fn law_trace_starts_at_the_held_expression(
    debugger: DebuggerView,
    env: EnvironmentView,
    chain: Seq<LocalContextView>,
    expr: SymbolicExpression,
    state: State,
)
    requires
        crate::model::user_functions(env.call_stack).len() > 0,
    ensures
        ({
            let held = debugger.evaluating(env, chain, expr, Some(state));
            let frames = held.trace(held.current->0.stack);
            &&& frames.len() > 0
            &&& frames[0].line == expr.span.start_line
            &&& frames[0].column == expr.span.start_column
            &&& frames[0].end_line == Some(expr.span.end_line)
            &&& frames[0].end_column == Some(expr.span.end_column)
        }),
{
    let held = debugger.evaluating(env, chain, expr, Some(state));
    law_trace_is_innermost_first(held, held.current->0.stack);
}

/// A function that has a frame keeps it, whatever is evaluated: its number, its name and its source
/// stay as they are.
pub proof fn law_frames_keep_their_identity(
    debugger: DebuggerView,
    env: EnvironmentView,
    chain: Seq<LocalContextView>,
    expr: SymbolicExpression,
    held: Option<State>,
    function: Seq<char>,
)
    requires
        debugger.stack_frames.contains_key(function),
    ensures
        ({
            let after = debugger.evaluating(env, chain, expr, held);
            let frame = debugger.stack_frames[function];
            &&& after.stack_frames.contains_key(function)
            &&& after.stack_frames[function].id == frame.id
            &&& after.stack_frames[function].name == frame.name
            &&& after.stack_frames[function].source == frame.source
        }),
{
}

/// After the evaluation of an expression in each function on a stack, a trace of the stack can be
/// given: the current call has a frame, and whatever could be traced still can.
pub proof fn law_evaluation_makes_traceable(
    debugger: DebuggerView,
    env: EnvironmentView,
    chain: Seq<LocalContextView>,
    expr: SymbolicExpression,
    held: Option<State>,
    outer: Seq<FunctionIdentifierView>,
)
    requires
        debugger.can_trace(outer),
    ensures
        ({
            let after = debugger.evaluating(env, chain, expr, held);
            let calls = crate::model::user_functions(env.call_stack);
            &&& after.can_trace(outer)
            &&& calls.len() > 0 ==> after.can_trace(outer.push(calls.last()))
        }),
{
    let after = debugger.evaluating(env, chain, expr, held);
    let calls = crate::model::user_functions(env.call_stack);
    assert forall|i: int|
        0 <= i < outer.len() && !crate::model::is_native(
            #[trigger] outer[i],
        ) implies after.stack_frames.contains_key(outer[i].identifier) by {
        law_frames_keep_their_identity(debugger, env, chain, expr, held, outer[i].identifier);
    }
    if calls.len() > 0 {
        let stack = outer.push(calls.last());
        assert forall|i: int|
            0 <= i < stack.len() && !crate::model::is_native(
                #[trigger] stack[i],
            ) implies after.stack_frames.contains_key(stack[i].identifier) by {
            if i < outer.len() {
                assert(stack[i] == outer[i]);
            }
        }
    }
}

// Scopes and variables.

/// Whether every frame has scopes, and every scope has variables behind its reference.
pub open spec fn coherent(debugger: DebuggerView) -> bool {
    &&& forall|function: Seq<char>| #[trigger]
        debugger.stack_frames.contains_key(function) ==> debugger.scopes.contains_key(
            debugger.stack_frames[function].id,
        )
    &&& forall|frame_id: i32, i: int|
        debugger.scopes.contains_key(frame_id) && 0 <= i < debugger.scopes[frame_id].len()
            ==> debugger.variables.contains_key(
            (#[trigger] debugger.scopes[frame_id][i]).variables_reference,
        )
}

/// An adapter without frames and scopes is coherent.
pub proof fn law_fresh_adapter_is_coherent(debugger: DebuggerView)
    requires
        debugger.stack_frames == Map::<Seq<char>, StackFrameView>::empty(),
        debugger.scopes == Map::<i32, Seq<ScopeView>>::empty(),
    ensures
        coherent(debugger),
{
}

/// Serving a request changes no frame, no scope and no variable, and so keeps the adapter coherent.
pub proof fn law_requests_keep_coherence(
    debugger: DebuggerView,
    seq: i64,
    command: RequestCommandView,
)
    ensures
        debugger.handling(seq, command).stack_frames == debugger.stack_frames,
        debugger.handling(seq, command).scopes == debugger.scopes,
        debugger.handling(seq, command).variables == debugger.variables,
        coherent(debugger) ==> coherent(debugger.handling(seq, command)),
{
}

/// Serving any message of the client changes no frame, no scope and no variable, and so keeps the
/// adapter coherent.
pub proof fn law_messages_keep_coherence(debugger: DebuggerView, message: ProtocolMessageView)
    ensures
        debugger.receiving(message).stack_frames == debugger.stack_frames,
        debugger.receiving(message).scopes == debugger.scopes,
        debugger.receiving(message).variables == debugger.variables,
        coherent(debugger) ==> coherent(debugger.receiving(message)),
{
    match message.message {
        MessageKindView::Request(command) => {
            law_requests_keep_coherence(debugger, message.seq as i64, command);
        },
        _ => {},
    }
}

/// Reporting the breakpoints that the engine has taken keeps the adapter coherent.
pub proof fn law_breakpoints_keep_coherence(
    debugger: DebuggerView,
    seq: i64,
    source: SourceView,
    requested: Seq<SourceBreakpointView>,
    ids: Seq<usize>,
)
    requires
        coherent(debugger),
    ensures
        coherent(debugger.reporting_breakpoints(seq, source, requested, ids)),
{
}

/// Texts for the user keep the adapter coherent, and so does telling of the end of the program.
pub proof fn law_output_keeps_coherence(
    debugger: DebuggerView,
    category: Category,
    text: Seq<char>,
    events: Seq<Seq<char>>,
)
    requires
        coherent(debugger),
    ensures
        coherent(debugger.printing(category, text)),
        coherent(debugger.completing(text, events)),
{
    let listed = debugger.printing(Category::Console, "Execution completed.\n"@).printing(
        Category::Console,
        "\nEvents emitted:\n"@,
    );
    let lines = events.map_values(|event: Seq<char>| event + "\n"@);
    crate::lemmas::lemma_printing_all_only_sends(listed, Category::Stdout, lines);
}

/// Following an evaluation keeps the adapter coherent.
pub proof fn law_evaluation_keeps_coherence(
    debugger: DebuggerView,
    env: EnvironmentView,
    chain: Seq<LocalContextView>,
    expr: SymbolicExpression,
    held: Option<State>,
)
    requires
        coherent(debugger),
        debugger.can_record(env, chain, expr),
    ensures
        coherent(debugger.evaluating(env, chain, expr, held)),
{
    let after = debugger.evaluating(env, chain, expr, held);
    assert forall|frame_id: i32, i: int|
        after.scopes.contains_key(frame_id) && 0 <= i
            < after.scopes[frame_id].len() implies after.variables.contains_key(
        (#[trigger] after.scopes[frame_id][i]).variables_reference,
    ) by {
        if after.scopes[frame_id] == debugger.scopes[frame_id] && debugger.scopes.contains_key(
            frame_id,
        ) {
            assert(debugger.variables.contains_key(
                debugger.scopes[frame_id][i].variables_reference,
            ));
        }
    }
}

/// In a coherent adapter, the scopes of each frame in a trace can be asked for, and asking for the
/// variables of any of these scopes brings them, without complaint.
pub proof fn law_coherent_adapter_serves_what_it_shows(
    debugger: DebuggerView,
    stack: Seq<FunctionIdentifierView>,
    frame: int,
    scope: int,
    seq: i64,
)
    requires
        coherent(debugger),
        debugger.can_trace(stack),
        0 <= frame < debugger.trace(stack).len(),
        0 <= scope < debugger.scopes[debugger.trace(stack)[frame].id].len(),
    ensures
        ({
            let frame_id = debugger.trace(stack)[frame].id;
            let reference = debugger.scopes[frame_id][scope].variables_reference;
            &&& debugger.can_serve(
                RequestCommandView::Scopes(ScopesArgumentsView { frame_id }),
            )
            &&& debugger.handling(
                seq,
                RequestCommandView::Variables(
                    VariablesArgumentsView { variables_reference: reference },
                ),
            ) == debugger.serving(
                seq,
                ResponseBodyView::Variables(
                    VariablesResponseView { variables: debugger.variables[reference] },
                ),
            )
        }),
{
    law_trace_is_innermost_first(debugger, stack);
    let user = |function: FunctionIdentifierView| !crate::model::is_native(function);
    let calls = crate::model::user_functions(stack);
    let index = calls.len() - 1 - frame;
    stack.lemma_filter_pred(user, index);
    assert(calls.contains(calls[index]));
    stack.lemma_filter_contains_rev(user, calls[index]);
    let position = choose|i: int| 0 <= i < stack.len() && stack[i] == calls[index];
    assert(!crate::model::is_native(stack[position]));
    assert(debugger.trace(stack)[frame] == debugger.stack_frames[calls[index].identifier]);
}

/// What an evaluation saves is what the client is shown: the scopes of the current call, in order,
/// and behind the reference of each scope exactly what the scope holds.
pub proof fn law_saved_scopes_are_shown(
    debugger: DebuggerView,
    env: EnvironmentView,
    chain: Seq<LocalContextView>,
    expr: SymbolicExpression,
    held: Option<State>,
    index: int,
    seq: i64,
)
    requires
        debugger.can_record(env, chain, expr),
        crate::model::user_functions(env.call_stack).len() > 0,
        0 <= index <= chain.len(),
    ensures
        ({
            let after = debugger.evaluating(env, chain, expr, held);
            let function = crate::model::user_functions(env.call_stack).last().identifier;
            let frame = after.stack_frames[function];
            let scopes = crate::model::frame_scopes(frame, chain, env.contract_context);
            &&& after.handling(
                seq,
                RequestCommandView::Scopes(ScopesArgumentsView { frame_id: frame.id }),
            ) == after.serving(seq, ResponseBodyView::Scopes(ScopesResponseView { scopes }))
            &&& after.handling(
                seq,
                RequestCommandView::Variables(
                    VariablesArgumentsView {
                        variables_reference: scopes[index].variables_reference,
                    },
                ),
            ) == after.serving(
                seq,
                ResponseBodyView::Variables(
                    VariablesResponseView {
                        variables: crate::model::scope_variables(
                            chain,
                            env.contract_context,
                            index,
                        ),
                    },
                ),
            )
        }),
{
}

/// Whether the client is shown these scopes for a frame, and behind the reference of each of them
/// what the scope holds.
pub open spec fn shows(
    debugger: DebuggerView,
    frame: StackFrameView,
    chain: Seq<LocalContextView>,
    contract: ContractContextView,
) -> bool {
    &&& debugger.scopes.contains_key(frame.id)
    &&& debugger.scopes[frame.id] == crate::model::frame_scopes(frame, chain, contract)
    &&& forall|index: int|
        0 <= index <= chain.len() ==> {
            let reference = (#[trigger] debugger.scopes[frame.id][index]).variables_reference;
            &&& debugger.variables.contains_key(reference)
            &&& debugger.variables[reference] == crate::model::scope_variables(
                chain,
                contract,
                index,
            )
        }
}

/// Saved scopes are shown.
pub proof fn law_saving_shows(
    debugger: DebuggerView,
    frame: StackFrameView,
    chain: Seq<LocalContextView>,
    contract: ContractContextView,
)
    requires
        DebuggerView::can_number_scopes(frame, chain),
    ensures
        shows(debugger.saving_scopes(frame, chain, contract), frame, chain, contract),
{
}

/// Saving the scopes of one frame leaves those of another as they are, with what they hold, as long
/// as neither frame has more than a thousand scopes.
pub proof fn law_saving_keeps_other_frames(
    debugger: DebuggerView,
    frame: StackFrameView,
    chain: Seq<LocalContextView>,
    contract: ContractContextView,
    other: StackFrameView,
    other_chain: Seq<LocalContextView>,
    other_contract: ContractContextView,
)
    requires
        frame.id != other.id,
        DebuggerView::can_number_scopes(frame, chain),
        DebuggerView::can_number_scopes(other, other_chain),
        chain.len() < 1000,
        other_chain.len() < 1000,
        shows(debugger, other, other_chain, other_contract),
    ensures
        shows(
            debugger.saving_scopes(frame, chain, contract),
            other,
            other_chain,
            other_contract,
        ),
{
    let after = debugger.saving_scopes(frame, chain, contract);
    assert forall|index: int| 0 <= index <= other_chain.len() implies {
        let reference = (#[trigger] after.scopes[other.id][index]).variables_reference;
        &&& after.variables.contains_key(reference)
        &&& after.variables[reference] == crate::model::scope_variables(
            other_chain,
            other_contract,
            index,
        )
    } by {
        let reference = debugger.scopes[other.id][index].variables_reference;
        assert(reference == crate::model::scope_reference(other.id, index));
    }
}

/// Scopes that are saved for one frame and then for another are all shown, and no two of them have the
/// same reference, as long as neither frame has more than a thousand. None of the references is zero,
/// which stands for a variable without parts.
pub proof fn law_frames_are_saved_apart(
    debugger: DebuggerView,
    a: StackFrameView,
    chain_a: Seq<LocalContextView>,
    contract_a: ContractContextView,
    b: StackFrameView,
    chain_b: Seq<LocalContextView>,
    contract_b: ContractContextView,
)
    requires
        a.id != b.id,
        0 < a.id,
        0 < b.id,
        DebuggerView::can_number_scopes(a, chain_a),
        DebuggerView::can_number_scopes(b, chain_b),
        chain_a.len() < 1000,
        chain_b.len() < 1000,
    ensures
        ({
            let first = debugger.saving_scopes(a, chain_a, contract_a);
            let after = first.saving_scopes(b, chain_b, contract_b);
            let references = (after.scopes[a.id] + after.scopes[b.id]).map_values(
                |scope: ScopeView| scope.variables_reference,
            );
            &&& after.scopes[a.id] == first.scopes[a.id]
            &&& shows(after, a, chain_a, contract_a)
            &&& shows(after, b, chain_b, contract_b)
            &&& references.no_duplicates()
            &&& !references.contains(0)
        }),
{
    let first = debugger.saving_scopes(a, chain_a, contract_a);
    let after = first.saving_scopes(b, chain_b, contract_b);
    law_saving_shows(debugger, a, chain_a, contract_a);
    law_saving_keeps_other_frames(first, b, chain_b, contract_b, a, chain_a, contract_a);
    law_saving_shows(first, b, chain_b, contract_b);
    let scopes_a = crate::model::frame_scopes(a, chain_a, contract_a);
    let scopes_b = crate::model::frame_scopes(b, chain_b, contract_b);
    let references = (scopes_a + scopes_b).map_values(
        |scope: ScopeView| scope.variables_reference,
    );
    assert forall|i: int| 0 <= i < references.len() implies #[trigger] references[i] == if i
        < scopes_a.len() {
        crate::model::scope_reference(a.id, i)
    } else {
        crate::model::scope_reference(b.id, i - scopes_a.len())
    } by {
        if i < scopes_a.len() {
            assert((scopes_a + scopes_b)[i] == scopes_a[i]);
        } else {
            assert((scopes_a + scopes_b)[i] == scopes_b[i - scopes_a.len()]);
        }
    }
}

/// Saving the same scopes twice is saving them once: they are replaced, and nothing is added.
pub proof fn law_saving_twice_is_saving_once(
    debugger: DebuggerView,
    frame: StackFrameView,
    chain: Seq<LocalContextView>,
    contract: ContractContextView,
)
    ensures
        ({
            let once = debugger.saving_scopes(frame, chain, contract);
            once.saving_scopes(frame, chain, contract) == once
        }),
{
    let once = debugger.saving_scopes(frame, chain, contract);
    assert(once.saving_scopes(frame, chain, contract) =~= once);
}

/// Following the same evaluation twice saves what following it once does.
pub proof fn law_recording_twice_is_recording_once(
    debugger: DebuggerView,
    env: EnvironmentView,
    chain: Seq<LocalContextView>,
    expr: SymbolicExpression,
)
    ensures
        ({
            let once = debugger.recording(env, chain, expr);
            once.recording(env, chain, expr) == once
        }),
{
    let once = debugger.recording(env, chain, expr);
    let calls = crate::model::user_functions(env.call_stack);
    if calls.len() > 0 {
        let function = calls.last().identifier;
        let frame = debugger.frame_at(env, function, expr);
        assert(once.frame_at(env, function, expr) == frame);
        law_saving_twice_is_saving_once(debugger, frame, chain, env.contract_context);
        assert(once.recording(env, chain, expr) =~= once);
    }
}

/// Asking for the variables of a scope that is shown brings what the scope holds, in one message,
/// and changes none of it. None of these variables has parts to be asked for.
pub proof fn law_shown_variables_are_served(
    debugger: DebuggerView,
    frame: StackFrameView,
    chain: Seq<LocalContextView>,
    contract: ContractContextView,
    index: int,
    seq: i64,
)
    requires
        shows(debugger, frame, chain, contract),
        0 <= index <= chain.len(),
    ensures
        ({
            let variables = crate::model::scope_variables(chain, contract, index);
            let after = debugger.handling(
                seq,
                RequestCommandView::Variables(
                    VariablesArgumentsView {
                        variables_reference: debugger.scopes[frame.id][index].variables_reference,
                    },
                ),
            );
            &&& after == debugger.serving(
                seq,
                ResponseBodyView::Variables(VariablesResponseView { variables }),
            )
            &&& after.variables == debugger.variables
            &&& forall|i: int|
                0 <= i < variables.len() ==> (#[trigger] variables[i]).variables_reference == 0
        }),
{
    assert(debugger.variables.contains_key(
        debugger.scopes[frame.id][index].variables_reference,
    ));
}

/// Scopes of one frame have different references, and so have scopes of different frames as long as
/// no frame has more than a thousand.
pub proof fn law_references_are_distinct(frame_a: i32, scope_a: int, frame_b: i32, scope_b: int)
    requires
        0 <= scope_a,
        0 <= scope_b,
        frame_a == frame_b || (scope_a < 1000 && scope_b < 1000),
        crate::model::scope_reference(frame_a, scope_a) == crate::model::scope_reference(
            frame_b,
            scope_b,
        ),
    ensures
        frame_a == frame_b,
        scope_a == scope_b,
{
}

/// The count of a local scope is the number of variables in it.
pub proof fn law_local_scopes_count_their_variables(
    frame: StackFrameView,
    chain: Seq<LocalContextView>,
    contract: ContractContextView,
    index: int,
)
    requires
        DebuggerView::can_number_scopes(frame, chain),
        0 <= index < chain.len(),
    ensures
        crate::model::frame_scopes(frame, chain, contract)[index].named_variables == Some(
            crate::model::scope_variables(chain, contract, index).len() as usize,
        ),
        crate::model::scope_variables(chain, contract, index).len() <= usize::MAX,
{
}

} // verus!
