//! What the client is told and the engine is asked, operation by operation.
//!
//! Each law says which actions an operation adds to those that are to be done, and in which fields,
//! whatever state the adapter is in.

use crate::clarity::{EnvironmentView, Span, SymbolicExpression};
use crate::engine::{ActionView, BreakpointData, State};
use crate::messages::{
    Category, ContinueResponseView, EventBodyView, EventView, InitializeResponseView,
    LaunchRequestArgumentsView, MessageKindView, OutputEventView, ProtocolMessageView,
    RequestCommandView, ResponseBodyView, ResponseView, ScopesArgumentsView, ScopesResponseView,
    SetBreakpointsArgumentsView, SetBreakpointsResponseView, SetExceptionBreakpointsResponseView,
    StackTraceResponseView, StoppedEventView, StoppedReason, ThreadsResponseView,
    VariablesArgumentsView, VariablesResponseView,
};
use crate::model::{CurrentView, DebuggerView, ReceivedView};
use crate::types::{BreakpointView, SourceBreakpointView, SourceView, ThreadView};
use vstd::prelude::*;

verus! {

// Messages.

/// The message `number` is a response, with these contents.
pub open spec fn response(
    number: int,
    request_seq: i64,
    success: bool,
    message: Option<Seq<char>>,
    body: Option<ResponseBodyView>,
) -> ActionView {
    ActionView::Send(
        ProtocolMessageView {
            seq: number,
            message: MessageKindView::Response(
                ResponseView { request_seq, success, message, body },
            ),
        },
    )
}

/// The message `number` answers a request with success.
pub open spec fn answer(number: int, request_seq: i64, body: ResponseBodyView) -> ActionView {
    response(number, request_seq, true, None, Some(body))
}

/// The message `number` refuses a request.
pub open spec fn refusal(number: int, request_seq: i64, message: Seq<char>) -> ActionView {
    response(number, request_seq, false, Some(message), None)
}

/// The message `number` is an event.
pub open spec fn notice(number: int, body: EventBodyView) -> ActionView {
    ActionView::Send(
        ProtocolMessageView {
            seq: number,
            message: MessageKindView::Event(EventView { body: Some(body) }),
        },
    )
}

/// The main thread has stopped.
pub open spec fn stopped(
    reason: StoppedReason,
    text: Option<Seq<char>>,
    hit_breakpoint_ids: Option<Seq<usize>>,
) -> EventBodyView {
    EventBodyView::Stopped(
        StoppedEventView {
            reason,
            description: None,
            thread_id: Some(0),
            preserve_focus_hint: None,
            text,
            all_threads_stopped: None,
            hit_breakpoint_ids,
        },
    )
}

/// A text for the user.
pub open spec fn output(category: Category, output: Seq<char>) -> EventBodyView {
    EventBodyView::Output(
        OutputEventView {
            category: Some(category),
            output,
            group: None,
            variables_reference: None,
            source: None,
            line: None,
            column: None,
            data: None,
        },
    )
}

/// Whether `after` is `before` with these actions added, `sent` messages among them, and nothing else
/// changed.
pub open spec fn adds(
    before: DebuggerView,
    after: DebuggerView,
    actions: Seq<ActionView>,
    sent: int,
) -> bool {
    after == DebuggerView {
        actions: before.actions + actions,
        send_seq: before.send_seq + sent,
        ..before
    }
}

// Requests.

/// A request to initialize is answered with what the adapter supports, which does not depend on
/// anything.
pub proof fn law_initialize_tells_capabilities(debugger: DebuggerView, seq: i64)
    ensures
        ({
            let told = crate::model::adapter_capabilities();
            &&& adds(
                debugger,
                debugger.handling(seq, RequestCommandView::Initialize),
                seq![
                    answer(
                        debugger.send_seq,
                        seq,
                        ResponseBodyView::Initialize(InitializeResponseView { capabilities: told }),
                    ),
                ],
                1,
            )
            &&& told.supports_configuration_done_request == Some(true)
            &&& told.supports_function_breakpoints == Some(true)
            &&& told.supports_step_in_targets_request == Some(true)
            &&& told.support_terminate_debuggee == Some(true)
            &&& told.supports_loaded_sources_request == Some(true)
            &&& told.supports_data_breakpoints == Some(true)
            &&& told.supports_breakpoint_locations_request == Some(true)
            &&& told.supports_conditional_breakpoints is None
            &&& told.supports_hit_conditional_breakpoints is None
            &&& told.supports_evaluate_for_hovers is None
            &&& told.exception_breakpoint_filters is None
            &&& told.supports_step_back is None
            &&& told.supports_set_variable is None
            &&& told.supports_restart_frame is None
            &&& told.supports_goto_targets_request is None
            &&& told.supports_completions_request is None
            &&& told.completion_trigger_characters is None
            &&& told.supports_modules_request is None
            &&& told.additional_module_columns is None
            &&& told.supported_checksum_algorithms is None
            &&& told.supports_restart_request is None
            &&& told.supports_exception_options is None
            &&& told.supports_value_formatting_options is None
            &&& told.supports_exception_info_request is None
            &&& told.support_suspend_debuggee is None
            &&& told.supports_delayed_stack_trace_loading is None
            &&& told.supports_log_points is None
            &&& told.supports_terminate_threads_request is None
            &&& told.supports_set_expression is None
            &&& told.supports_terminate_request is None
            &&& told.supports_read_memory_request is None
            &&& told.supports_write_memory_request is None
            &&& told.supports_disassemble_request is None
            &&& told.supports_cancel_request is None
            &&& told.supports_clipboard_context is None
            &&& told.supports_stepping_granularity is None
            &&& told.supports_instruction_breakpoints is None
            &&& told.supports_exception_filter_options is None
            &&& told.supports_single_thread_execution_requests is None
        }),
{
    assert(debugger.handling(seq, RequestCommandView::Initialize).actions =~= debugger.actions
        + seq![
        answer(
            debugger.send_seq,
            seq,
            ResponseBodyView::Initialize(
                InitializeResponseView { capabilities: crate::model::adapter_capabilities() },
            ),
        ),
    ]);
}

/// A launch without a manifest is refused for that, one that has a manifest but no expression for
/// the lack of the expression, and any other starts the engine on the expression. Such a launch
/// sends nothing yet.
pub proof fn law_launch_starts_or_is_refused(
    debugger: DebuggerView,
    seq: i64,
    arguments: LaunchRequestArgumentsView,
)
    ensures
        ({
            let after = debugger.handling(seq, RequestCommandView::Launch(arguments));
            let number = debugger.send_seq;
            &&& arguments.manifest is None ==> adds(
                debugger,
                after,
                seq![refusal(number, seq, "manifest must be specified"@)],
                1,
            )
            &&& arguments.manifest is Some && arguments.expression is None ==> adds(
                debugger,
                after,
                seq![refusal(number, seq, "expression to debug must be specified"@)],
                1,
            )
            &&& arguments.manifest matches Some(manifest) ==> arguments.expression matches Some(
                expression,
            ) ==> after == DebuggerView {
                actions: debugger.actions.push(ActionView::Start(expression)),
                started: true,
                launched: Some((manifest, expression)),
                launch_seq: seq,
                ..debugger
            }
        }),
{
    let after = debugger.handling(seq, RequestCommandView::Launch(arguments));
    let number = debugger.send_seq;
    if arguments.manifest is None {
        assert(after.actions =~= debugger.actions + seq![
            refusal(number, seq, "manifest must be specified"@),
        ]);
    } else if arguments.expression is None {
        assert(after.actions =~= debugger.actions + seq![
            refusal(number, seq, "expression to debug must be specified"@),
        ]);
    }
}

/// The end of configuration is answered, and then the launch, each under its own number.
pub proof fn law_configuration_done_answers_both(debugger: DebuggerView, seq: i64)
    ensures
        adds(
            debugger,
            debugger.handling(seq, RequestCommandView::ConfigurationDone),
            seq![
                answer(debugger.send_seq, seq, ResponseBodyView::ConfigurationDone),
                answer(debugger.send_seq + 1, debugger.launch_seq, ResponseBodyView::Launch),
            ],
            2,
        ),
{
    assert(debugger.handling(seq, RequestCommandView::ConfigurationDone).actions
        =~= debugger.actions + seq![
        answer(debugger.send_seq, seq, ResponseBodyView::ConfigurationDone),
        answer(debugger.send_seq + 1, debugger.launch_seq, ResponseBodyView::Launch),
    ]);
}

/// A request with breakpoints gives the engine one order, and says nothing to the client yet. The
/// order holds the request as it came, and as many breakpoints as were requested: each in the
/// contract of the request's path, at the line and the column of the requested one, the column zero
/// where there was none.
pub proof fn law_requested_breakpoints_are_ordered(
    debugger: DebuggerView,
    seq: i64,
    arguments: SetBreakpointsArgumentsView,
)
    requires
        arguments.breakpoints is Some,
        arguments.source.path is Some,
    ensures
        ({
            let after = debugger.handling(seq, RequestCommandView::SetBreakpoints(arguments));
            let requested = arguments.breakpoints->0;
            let contract = debugger.path_to_contract_id[arguments.source.path->0];
            &&& after.actions.len() == debugger.actions.len() + 1
            &&& after.actions.last() matches ActionView::AddBreakpoints(order)
            &&& adds(debugger, after, seq![ActionView::AddBreakpoints(order)], 0)
            &&& order.seq == seq
            &&& order.arguments == arguments
            &&& order.breakpoints.len() == requested.len()
            &&& forall|i: int|
                0 <= i < requested.len() ==> {
                    let ordered = #[trigger] order.breakpoints[i];
                    let line = requested[i].line;
                    let column = if requested[i].column is Some {
                        requested[i].column->0
                    } else {
                        0
                    };
                    &&& ordered.id == 0
                    &&& ordered.verified
                    &&& ordered.source == contract
                    &&& ordered.data == BreakpointData::Source { line, column: requested[i].column }
                    &&& ordered.span == Some(
                        Span {
                            start_line: line,
                            start_column: column,
                            end_line: line,
                            end_column: column,
                        },
                    )
                }
        }),
{
    let after = debugger.handling(seq, RequestCommandView::SetBreakpoints(arguments));
    assert(after.actions =~= debugger.actions + seq![after.actions.last()]);
}

/// A request without breakpoints is answered at once, with none.
pub proof fn law_no_breakpoints_are_answered_at_once(
    debugger: DebuggerView,
    seq: i64,
    arguments: SetBreakpointsArgumentsView,
)
    requires
        arguments.breakpoints is None,
    ensures
        adds(
            debugger,
            debugger.handling(seq, RequestCommandView::SetBreakpoints(arguments)),
            seq![
                answer(
                    debugger.send_seq,
                    seq,
                    ResponseBodyView::SetBreakpoints(
                        SetBreakpointsResponseView { breakpoints: Seq::empty() },
                    ),
                ),
            ],
            1,
        ),
{
    assert(debugger.handling(seq, RequestCommandView::SetBreakpoints(arguments)).actions
        =~= debugger.actions + seq![
        answer(
            debugger.send_seq,
            seq,
            ResponseBodyView::SetBreakpoints(
                SetBreakpointsResponseView { breakpoints: Seq::empty() },
            ),
        ),
    ]);
}

/// When the engine has taken breakpoints, the client is told of each of them, in the order of the
/// request: its number, its place, and the log message as its message.
pub proof fn law_taken_breakpoints_are_reported(
    debugger: DebuggerView,
    seq: i64,
    source: SourceView,
    requested: Seq<SourceBreakpointView>,
    ids: Seq<usize>,
)
    requires
        ids.len() == requested.len(),
    ensures
        ({
            let listed = Seq::new(
                requested.len(),
                |i: int|
                    BreakpointView {
                        id: Some(ids[i]),
                        verified: true,
                        message: requested[i].log_message,
                        source: Some(source),
                        line: Some(requested[i].line),
                        column: requested[i].column,
                        end_line: Some(requested[i].line),
                        end_column: requested[i].column,
                        instruction_reference: None,
                        offset: None,
                    },
            );
            adds(
                debugger,
                debugger.reporting_breakpoints(seq, source, requested, ids),
                seq![
                    answer(
                        debugger.send_seq,
                        seq,
                        ResponseBodyView::SetBreakpoints(
                            SetBreakpointsResponseView { breakpoints: listed },
                        ),
                    ),
                ],
                1,
            )
        }),
{
    let listed = Seq::new(
        requested.len(),
        |i: int|
            BreakpointView {
                id: Some(ids[i]),
                verified: true,
                message: requested[i].log_message,
                source: Some(source),
                line: Some(requested[i].line),
                column: requested[i].column,
                end_line: Some(requested[i].line),
                end_column: requested[i].column,
                instruction_reference: None,
                offset: None,
            },
    );
    assert(crate::model::taken_breakpoints(source, requested, ids) =~= listed);
    assert(debugger.reporting_breakpoints(seq, source, requested, ids).actions
        =~= debugger.actions + seq![
        answer(
            debugger.send_seq,
            seq,
            ResponseBodyView::SetBreakpoints(SetBreakpointsResponseView { breakpoints: listed }),
        ),
    ]);
}

/// A request for the threads is answered with the one thread. The first such request also answers
/// the launch, and then tells of a stop at the start; it is remembered.
pub proof fn law_threads_are_listed(debugger: DebuggerView, seq: i64)
    ensures
        ({
            let number = debugger.send_seq;
            let after = debugger.handling(seq, RequestCommandView::Threads);
            let listed = answer(
                number,
                seq,
                ResponseBodyView::Threads(
                    ThreadsResponseView { threads: seq![ThreadView { id: 0, name: "main"@ }] },
                ),
            );
            &&& debugger.init_complete ==> adds(debugger, after, seq![listed], 1)
            &&& !debugger.init_complete ==> adds(
                DebuggerView { init_complete: true, ..debugger },
                after,
                seq![
                    listed,
                    answer(number + 1, debugger.launch_seq, ResponseBodyView::Launch),
                    notice(
                        number + 2,
                        stopped(StoppedReason::Entry, Some("Stopped at start!!!"@), None),
                    ),
                ],
                3,
            )
        }),
{
    let number = debugger.send_seq;
    let after = debugger.handling(seq, RequestCommandView::Threads);
    let listed = answer(
        number,
        seq,
        ResponseBodyView::Threads(
            ThreadsResponseView { threads: seq![ThreadView { id: 0, name: "main"@ }] },
        ),
    );
    if debugger.init_complete {
        assert(after.actions =~= debugger.actions + seq![listed]);
    } else {
        assert(after.actions =~= debugger.actions + seq![
            listed,
            answer(number + 1, debugger.launch_seq, ResponseBodyView::Launch),
            notice(
                number + 2,
                stopped(StoppedReason::Entry, Some("Stopped at start!!!"@), None),
            ),
        ]);
    }
}

/// Requests that only ask for something are answered by one message: a trace with the frames of the
/// held stack and the number of calls on it, the scopes of a frame with those that were saved for it,
/// and exception breakpoints with nothing.
pub proof fn law_questions_are_answered(debugger: DebuggerView, seq: i64, frame_id: i32)
    ensures
        adds(
            debugger,
            debugger.handling(seq, RequestCommandView::SetExceptionBreakpoints),
            seq![
                answer(
                    debugger.send_seq,
                    seq,
                    ResponseBodyView::SetExceptionBreakpoints(
                        SetExceptionBreakpointsResponseView { breakpoints: None },
                    ),
                ),
            ],
            1,
        ),
        debugger.current matches Some(current) ==> adds(
            debugger,
            debugger.handling(seq, RequestCommandView::StackTrace),
            seq![
                answer(
                    debugger.send_seq,
                    seq,
                    ResponseBodyView::StackTrace(
                        StackTraceResponseView {
                            stack_frames: debugger.trace(current.stack),
                            total_frames: Some(current.stack.len() as i32),
                        },
                    ),
                ),
            ],
            1,
        ),
        adds(
            debugger,
            debugger.handling(seq, RequestCommandView::Scopes(ScopesArgumentsView { frame_id })),
            seq![
                answer(
                    debugger.send_seq,
                    seq,
                    ResponseBodyView::Scopes(
                        ScopesResponseView { scopes: debugger.scopes[frame_id] },
                    ),
                ),
            ],
            1,
        ),
{
    let exceptions = debugger.handling(seq, RequestCommandView::SetExceptionBreakpoints).actions;
    assert(exceptions =~= debugger.actions + seq![exceptions.last()]);
    let trace = debugger.handling(seq, RequestCommandView::StackTrace).actions;
    assert(trace =~= debugger.actions + seq![trace.last()]);
    let scopes = debugger.handling(
        seq,
        RequestCommandView::Scopes(ScopesArgumentsView { frame_id }),
    ).actions;
    assert(scopes =~= debugger.actions + seq![scopes.last()]);
}

/// A request for variables is answered with those behind the reference. Where there are none, the
/// user is told so first, and the answer is empty.
pub proof fn law_variables_are_listed(debugger: DebuggerView, seq: i64, variables_reference: i32)
    ensures
        ({
            let number = debugger.send_seq;
            let after = debugger.handling(
                seq,
                RequestCommandView::Variables(VariablesArgumentsView { variables_reference }),
            );
            &&& debugger.variables.contains_key(variables_reference) ==> adds(
                debugger,
                after,
                seq![
                    answer(
                        number,
                        seq,
                        ResponseBodyView::Variables(
                            VariablesResponseView {
                                variables: debugger.variables[variables_reference],
                            },
                        ),
                    ),
                ],
                1,
            )
            &&& !debugger.variables.contains_key(variables_reference) ==> adds(
                debugger,
                after,
                seq![
                    notice(number, output(Category::Console, "unknown variable reference"@)),
                    answer(
                        number + 1,
                        seq,
                        ResponseBodyView::Variables(
                            VariablesResponseView { variables: Seq::empty() },
                        ),
                    ),
                ],
                2,
            )
        }),
{
    let after = debugger.handling(
        seq,
        RequestCommandView::Variables(VariablesArgumentsView { variables_reference }),
    ).actions;
    if debugger.variables.contains_key(variables_reference) {
        assert(after =~= debugger.actions + seq![after.last()]);
    } else {
        assert(after =~= debugger.actions + seq![after[after.len() - 2], after.last()]);
    }
}

/// Each request that moves execution asks the engine for the move that it names, whatever state the
/// adapter is in, and is then answered: a step in, a step out, a step over the held expression, going
/// on, a pause, and the end.
pub proof fn law_moves_are_those_asked_for(debugger: DebuggerView, seq: i64)
    ensures
        ({
            let number = debugger.send_seq;
            &&& adds(
                debugger,
                debugger.handling(seq, RequestCommandView::StepIn),
                seq![ActionView::StepIn, answer(number, seq, ResponseBodyView::StepIn)],
                1,
            )
            &&& adds(
                debugger,
                debugger.handling(seq, RequestCommandView::StepOut),
                seq![ActionView::Finish, answer(number, seq, ResponseBodyView::StepOut)],
                1,
            )
            &&& debugger.current matches Some(current) ==> adds(
                debugger,
                debugger.handling(seq, RequestCommandView::Next),
                seq![
                    ActionView::StepOver(current.expr_id),
                    answer(number, seq, ResponseBodyView::Next),
                ],
                1,
            )
            &&& adds(
                debugger,
                debugger.handling(seq, RequestCommandView::Continue),
                seq![
                    ActionView::ContinueExecution,
                    answer(
                        number,
                        seq,
                        ResponseBodyView::Continue(
                            ContinueResponseView { all_threads_continued: None },
                        ),
                    ),
                ],
                1,
            )
            &&& adds(
                debugger,
                debugger.handling(seq, RequestCommandView::Pause),
                seq![ActionView::Pause, answer(number, seq, ResponseBodyView::Pause)],
                1,
            )
            &&& adds(
                debugger,
                debugger.handling(seq, RequestCommandView::Disconnect),
                seq![ActionView::Quit, answer(number, seq, ResponseBodyView::Disconnect)],
                1,
            )
        }),
{
    let step_in = debugger.handling(seq, RequestCommandView::StepIn).actions;
    assert(step_in =~= debugger.actions + seq![step_in[step_in.len() - 2], step_in.last()]);
    let step_out = debugger.handling(seq, RequestCommandView::StepOut).actions;
    assert(step_out =~= debugger.actions + seq![step_out[step_out.len() - 2], step_out.last()]);
    let next = debugger.handling(seq, RequestCommandView::Next).actions;
    assert(next =~= debugger.actions + seq![next[next.len() - 2], next.last()]);
    let go_on = debugger.handling(seq, RequestCommandView::Continue).actions;
    assert(go_on =~= debugger.actions + seq![go_on[go_on.len() - 2], go_on.last()]);
    let pause = debugger.handling(seq, RequestCommandView::Pause).actions;
    assert(pause =~= debugger.actions + seq![pause[pause.len() - 2], pause.last()]);
    let quit = debugger.handling(seq, RequestCommandView::Disconnect).actions;
    assert(quit =~= debugger.actions + seq![quit[quit.len() - 2], quit.last()]);
}

/// A request that the adapter does not serve is refused.
pub proof fn law_unsupported_requests_are_refused(debugger: DebuggerView, seq: i64)
    ensures
        adds(
            debugger,
            debugger.handling(seq, RequestCommandView::Unsupported),
            seq![refusal(debugger.send_seq, seq, "unsupported request"@)],
            1,
        ),
{
    let after = debugger.handling(seq, RequestCommandView::Unsupported).actions;
    assert(after =~= debugger.actions + seq![after.last()]);
}

// What comes in.

/// The requests after which execution goes on are the steps, going on, the pause and the end. It also
/// goes on at the end of the stream; any other message, and what cannot be read, leaves it where it
/// is.
pub proof fn law_what_lets_execution_go_on(command: RequestCommandView, received: ReceivedView)
    ensures
        crate::model::resumes(command) <==> (command is StepIn || command is StepOut
            || command is Next || command is Continue || command is Pause
            || command is Disconnect),
        crate::model::ends_wait(received) <==> (received is End || (
        received matches ReceivedView::Message(message)
            && message.message matches MessageKindView::Request(asked) && crate::model::resumes(
            asked,
        ))),
{
}

/// A request is handled under its own number. Any other message is acknowledged, by one answer
/// without content.
pub proof fn law_messages_are_dispatched(debugger: DebuggerView, seq: i64, message: MessageKindView)
    ensures
        ({
            let after = debugger.receiving(ProtocolMessageView { seq: seq as int, message });
            &&& message matches MessageKindView::Request(command) ==> after == debugger.handling(
                seq,
                command,
            )
            &&& !(message is Request) ==> adds(
                debugger,
                after,
                seq![response(debugger.send_seq, seq, true, None, None)],
                1,
            )
        }),
{
    if !(message is Request) {
        let after = debugger.receiving(ProtocolMessageView { seq: seq as int, message }).actions;
        assert(after =~= debugger.actions + seq![after.last()]);
    }
    law_acknowledgement(debugger, seq);
}

/// An acknowledgement is one answer without content.
pub proof fn law_acknowledgement(debugger: DebuggerView, seq: i64)
    ensures
        adds(
            debugger,
            debugger.acknowledging(seq),
            seq![response(debugger.send_seq, seq, true, None, None)],
            1,
        ),
{
    let after = debugger.acknowledging(seq).actions;
    assert(after =~= debugger.actions + seq![after.last()]);
}

/// What comes in is a message, something unreadable, or the end of the stream.
pub proof fn law_received_is_what_came_in<E>(
    message: Option<Result<crate::messages::ProtocolMessage, E>>,
)
    ensures
        (crate::model::received(message) is End) == (message is None),
        (crate::model::received(message) is Unreadable) == (message matches Some(Err(_))),
        message matches Some(Ok(came)) ==> crate::model::received(message)
            == ReceivedView::Message(came@),
{
}

/// Only a message is served. Before the launch, the launch is picked up after anything that could be
/// read; while execution is held, the place is forgotten where execution goes on, and only there.
pub proof fn law_waits_serve_messages(debugger: DebuggerView, received: ReceivedView)
    ensures
        debugger.taking(received) == match received {
            ReceivedView::Message(message) => debugger.receiving(message),
            _ => debugger,
        },
        debugger.taking_before_launch(received) == if received is Unreadable {
            debugger
        } else {
            DebuggerView { launched: None, ..debugger.taking(received) }
        },
        debugger.taking_while_held(received) == if crate::model::ends_wait(received) {
            DebuggerView { current: None, ..debugger.taking(received) }
        } else {
            debugger.taking(received)
        },
{
}

/// Going on forgets the place, picking a launch up forgets the launch, handing over leaves nothing to
/// be done, and nothing else changes.
pub proof fn law_small_steps(debugger: DebuggerView)
    ensures
        debugger.resuming() == (DebuggerView { current: None, ..debugger }),
        debugger.picking_up() == (DebuggerView { launched: None, ..debugger }),
        debugger.handing_over() == (DebuggerView { actions: Seq::empty(), ..debugger }),
{
}

/// A fresh adapter knows nothing, has nothing to do, and numbers its messages from zero.
pub proof fn law_fresh_adapter_is_empty()
    ensures
        ({
            let fresh = DebuggerView::fresh();
            &&& forall|key: Seq<char>| !(#[trigger] fresh.path_to_contract_id.contains_key(key))
            &&& forall|key: Seq<char>| !(#[trigger] fresh.contract_id_to_path.contains_key(key))
            &&& fresh.actions.len() == 0
            &&& !fresh.started
            &&& fresh.send_seq == 0
            &&& fresh.launched is None
            &&& fresh.launch_seq == 0
            &&& fresh.current is None
            &&& !fresh.init_complete
            &&& forall|key: Seq<char>| !(#[trigger] fresh.stack_frames.contains_key(key))
            &&& forall|key: i32| !(#[trigger] fresh.scopes.contains_key(key))
            &&& forall|key: i32| !(#[trigger] fresh.variables.contains_key(key))
        }),
{
}

// Holding execution.

/// The client hears of a held evaluation by one event, whatever the call stack, the expression and
/// the state of the adapter. A hit breakpoint comes with its number, and no other reason with one.
/// The place is remembered, and nothing else changes.
pub proof fn law_hold_tells_why(
    debugger: DebuggerView,
    env: EnvironmentView,
    expr: SymbolicExpression,
    state: State,
)
    ensures
        ({
            let told = match state {
                State::Start => EventBodyView::Initialized,
                State::Break(id) => stopped(StoppedReason::Breakpoint, None, Some(seq![id])),
                State::DataBreak(id) => stopped(
                    StoppedReason::DataBreakpoint,
                    None,
                    Some(seq![id]),
                ),
                State::Pause => stopped(StoppedReason::Pause, None, None),
                _ => stopped(StoppedReason::Step, None, None),
            };
            let place = CurrentView {
                source: SourceView {
                    name: Some(env.contract_context.contract_identifier.text),
                    path: Some(
                        if debugger.contract_id_to_path.contains_key(
                            env.contract_context.contract_identifier.text,
                        ) {
                            debugger.contract_id_to_path[env.contract_context.contract_identifier.text]
                        } else {
                            "debugger"@
                        },
                    ),
                    source_reference: None,
                    presentation_hint: None,
                    origin: None,
                    sources: None,
                    adapter_data: None,
                    checksums: None,
                },
                span: expr.span,
                expr_id: expr.id,
                stack: env.call_stack,
            };
            adds(
                DebuggerView { current: Some(place), ..debugger },
                debugger.holding(env, expr, state),
                seq![notice(debugger.send_seq, told)],
                1,
            )
        }),
{
    let after = debugger.holding(env, expr, state).actions;
    assert(after =~= debugger.actions + seq![after.last()]);
}

// Output.

/// A text for the user is one event, with the text as it is.
pub proof fn law_texts_are_shown(debugger: DebuggerView, category: Category, text: Seq<char>)
    ensures
        adds(
            debugger,
            debugger.printing(category, text),
            seq![notice(debugger.send_seq, output(category, text))],
            1,
        ),
{
    let after = debugger.printing(category, text).actions;
    assert(after =~= debugger.actions + seq![after.last()]);
}

proof fn lemma_texts_are_shown_in_order(
    debugger: DebuggerView,
    category: Category,
    texts: Seq<Seq<char>>,
)
    ensures
        adds(
            debugger,
            debugger.printing_all(category, texts),
            Seq::new(
                texts.len(),
                |i: int| notice(debugger.send_seq + i, output(category, texts[i])),
            ),
            texts.len() as int,
        ),
    decreases texts.len(),
{
    let shown = Seq::new(
        texts.len(),
        |i: int| notice(debugger.send_seq + i, output(category, texts[i])),
    );
    let after = debugger.printing_all(category, texts);
    if texts.len() > 0 {
        lemma_texts_are_shown_in_order(debugger, category, texts.drop_last());
        law_texts_are_shown(
            debugger.printing_all(category, texts.drop_last()),
            category,
            texts.last(),
        );
    }
    assert(after.actions =~= debugger.actions + shown);
}

/// At the end of the program the user sees that it is over, then, where there are any, each event
/// on a line of its own under a heading, in the order in which they were emitted, and last the value
/// under its heading.
pub proof fn law_end_is_told_in_order(
    debugger: DebuggerView,
    value: Seq<char>,
    events: Seq<Seq<char>>,
)
    ensures
        ({
            let number = debugger.send_seq;
            let start = debugger.actions.len() as int;
            let after = debugger.completing(value, events);
            let sent = if events.len() == 0 {
                3
            } else {
                events.len() + 4
            };
            &&& after == DebuggerView { actions: after.actions, send_seq: number + sent, ..debugger }
            &&& debugger.actions.is_prefix_of(after.actions)
            &&& after.actions.len() == start + sent
            &&& after.actions[start] == notice(
                number,
                output(Category::Console, "Execution completed.\n"@),
            )
            &&& events.len() > 0 ==> after.actions[start + 1] == notice(
                number + 1,
                output(Category::Console, "\nEvents emitted:\n"@),
            )
            &&& forall|i: int|
                0 <= i < events.len() ==> #[trigger] after.actions[start + 2 + i] == notice(
                    number + 2 + i,
                    output(Category::Stdout, events[i] + "\n"@),
                )
            &&& after.actions[start + sent - 2] == notice(
                number + sent - 2,
                output(Category::Console, "\nReturn value:"@),
            )
            &&& after.actions[start + sent - 1] == notice(
                number + sent - 1,
                output(Category::Stdout, value + "\n"@),
            )
        }),
{
    let number = debugger.send_seq;
    let start = debugger.actions.len() as int;
    let ended = debugger.printing(Category::Console, "Execution completed.\n"@);
    let headed = ended.printing(Category::Console, "\nEvents emitted:\n"@);
    let lines = events.map_values(|event: Seq<char>| event + "\n"@);
    let listed = headed.printing_all(Category::Stdout, lines);
    let after = debugger.completing(value, events);
    lemma_texts_are_shown_in_order(headed, Category::Stdout, lines);
    let shown = Seq::new(
        lines.len(),
        |i: int| notice(headed.send_seq + i, output(Category::Stdout, lines[i])),
    );
    assert(listed.actions == headed.actions + shown);
    if events.len() > 0 {
        assert forall|i: int| 0 <= i < events.len() implies #[trigger] after.actions[start + 2 + i]
            == notice(number + 2 + i, output(Category::Stdout, events[i] + "\n"@)) by {
            assert(after.actions[start + 2 + i] == shown[i]);
        }
        assert forall|i: int| 0 <= i < start + 2 implies #[trigger] after.actions[i]
            == headed.actions[i] by {
            assert(listed.actions[i] == headed.actions[i]);
        }
    }
    assert(debugger.actions =~= after.actions.subrange(0, start));
}

} // verus!
