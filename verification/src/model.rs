//! The adapter as a mathematical value, and what each of its operations makes of it.

use crate::clarity::{
    BindingView, CallableContractView, ContractContextView, DataMapView, DataVariableView,
    EnvironmentView, FunctionIdentifierView, LocalContextView,
    QualifiedContractIdentifierView, Span, SymbolicExpression,
};
use crate::engine::{ActionView, BreakpointData, BreakpointOrderView, EngineBreakpointView, State};
use crate::messages::{
    Category, ContinueResponseView, EventBodyView, EventView, InitializeResponseView,
    LaunchRequestArgumentsView, MessageKindView, OutputEventView, ProtocolMessage,
    ProtocolMessageView,
    RequestCommandView, ResponseBodyView, ResponseView, ScopesResponseView,
    SetBreakpointsArgumentsView, SetBreakpointsResponseView, SetExceptionBreakpointsResponseView,
    StackTraceResponseView, StoppedEventView, StoppedReason, ThreadsResponseView,
    VariablesResponseView,
};
use crate::types::{
    BreakpointView, CapabilitiesView, PresentationHint, ScopeView, SourceBreakpointView,
    SourceView, StackFrameView, ThreadView, VariableView,
};
use vstd::prelude::*;

verus! {

/// Where execution is held.
pub struct CurrentView {
    pub source: SourceView,
    pub span: Span,
    pub expr_id: u64,
    pub stack: Seq<FunctionIdentifierView>,
}

/// The adapter. Paths are found by the printed name of their contract, frames by the name of their
/// function, scopes by the number of their frame, and variables by the reference of their scope.
#[verifier::ext_equal]
pub struct DebuggerView {
    pub path_to_contract_id: Map<Seq<char>, QualifiedContractIdentifierView>,
    pub contract_id_to_path: Map<Seq<char>, Seq<char>>,
    /// What is to be done, in order.
    pub actions: Seq<ActionView>,
    /// Whether the engine has been started.
    pub started: bool,
    /// The sequence number of the next message.
    pub send_seq: int,
    /// The manifest and the expression of a launch that nobody has picked up yet.
    pub launched: Option<(Seq<char>, Seq<char>)>,
    /// The sequence number of the last launch request.
    pub launch_seq: i64,
    pub current: Option<CurrentView>,
    /// Whether the client has been told that the launch is over.
    pub init_complete: bool,
    pub stack_frames: Map<Seq<char>, StackFrameView>,
    pub scopes: Map<i32, Seq<ScopeView>>,
    pub variables: Map<i32, Seq<VariableView>>,
}

// The call stack.

/// Whether a function is built into the language.
pub open spec fn is_native(function: FunctionIdentifierView) -> bool {
    "_native_:"@.is_prefix_of(function.identifier)
}

/// The calls on a stack that are not calls of built-in functions.
pub open spec fn user_functions(stack: Seq<FunctionIdentifierView>) -> Seq<FunctionIdentifierView> {
    stack.filter(|function: FunctionIdentifierView| !is_native(function))
}

// Scopes and variables.

/// A variable without parts of its own.
pub open spec fn flat_variable(
    name: Seq<char>,
    value: Seq<char>,
    var_type: Seq<char>,
) -> VariableView {
    VariableView {
        name,
        value,
        var_type: Some(var_type),
        presentation_hint: None,
        evaluate_name: None,
        variables_reference: 0,
        named_variables: None,
        indexed_variables: None,
        memory_reference: None,
    }
}

/// How a bound name is shown.
pub open spec fn binding_variable(binding: BindingView) -> VariableView {
    flat_variable(binding.name, binding.value.text, crate::clarity::value_type(binding.value))
}

/// How a name that stands for a contract is shown.
pub open spec fn callable_variable(callable: CallableContractView) -> VariableView {
    flat_variable(callable.name, callable.contract_id.text, callable.trait_id)
}

/// How a data variable is shown.
pub open spec fn data_variable(data: DataVariableView) -> VariableView {
    flat_variable(data.name, data.value.text, data.value_type)
}

/// How a data map is shown: by its type, without its entries.
pub open spec fn map_variable(data: DataMapView) -> VariableView {
    flat_variable(
        data.name,
        Seq::empty(),
        "{"@ + data.key_type + ": "@ + data.value_type + "}"@,
    )
}

/// What the scope of a local context holds.
pub open spec fn context_variables(context: LocalContextView) -> Seq<VariableView> {
    context.variables.map_values(|b: BindingView| binding_variable(b))
        + context.callable_contracts.map_values(|c: CallableContractView| callable_variable(c))
}

/// What the scope of a contract holds: its constants, its data variables and its data maps.
pub open spec fn contract_variables(contract: ContractContextView) -> Seq<VariableView> {
    contract.variables.map_values(|b: BindingView| binding_variable(b))
        + contract.meta_data_var.map_values(|d: DataVariableView| data_variable(d))
        + contract.meta_data_map.map_values(|d: DataMapView| map_variable(d))
}

/// The reference of the scope at `index` of a frame.
pub open spec fn scope_reference(frame_id: i32, index: int) -> int {
    frame_id * 1000 + index
}

/// The scope of a local context, at `index` among the scopes of `frame`.
pub open spec fn local_scope(
    frame: StackFrameView,
    context: LocalContextView,
    index: int,
) -> ScopeView {
    ScopeView {
        name: if context.depth == 0 {
            "Arguments"@
        } else {
            "Locals"@
        },
        presentation_hint: if context.depth == 0 {
            Some(PresentationHint::Arguments)
        } else {
            Some(PresentationHint::Locals)
        },
        variables_reference: scope_reference(frame.id, index) as i32,
        named_variables: Some(
            (context.variables.len() + context.callable_contracts.len()) as usize,
        ),
        indexed_variables: None,
        expensive: false,
        source: frame.source,
        line: None,
        column: None,
        end_line: None,
        end_column: None,
    }
}

/// The scope of a contract, at `index` among the scopes of `frame`. Its count covers the constants.
pub open spec fn contract_scope(
    frame: StackFrameView,
    contract: ContractContextView,
    index: int,
) -> ScopeView {
    ScopeView {
        name: "Contract Variables"@,
        presentation_hint: None,
        variables_reference: scope_reference(frame.id, index) as i32,
        named_variables: Some(contract.variables.len() as usize),
        indexed_variables: None,
        expensive: true,
        source: frame.source,
        line: None,
        column: None,
        end_line: None,
        end_column: None,
    }
}

/// The scopes of a frame: those of the local contexts from the inside out, then that of the
/// contract.
pub open spec fn frame_scopes(
    frame: StackFrameView,
    chain: Seq<LocalContextView>,
    contract: ContractContextView,
) -> Seq<ScopeView> {
    Seq::new(
        chain.len() + 1,
        |i: int|
            if i < chain.len() {
                local_scope(frame, chain[i], i)
            } else {
                contract_scope(frame, contract, i)
            },
    )
}

/// What the scope at `index` of a frame holds.
pub open spec fn scope_variables(
    chain: Seq<LocalContextView>,
    contract: ContractContextView,
    index: int,
) -> Seq<VariableView> {
    if index < chain.len() {
        context_variables(chain[index])
    } else {
        contract_variables(contract)
    }
}

/// The variables in `base`, with those of the first `count` scopes of a frame put in.
pub open spec fn with_scopes(
    base: Map<i32, Seq<VariableView>>,
    frame_id: i32,
    chain: Seq<LocalContextView>,
    contract: ContractContextView,
    count: int,
) -> Map<i32, Seq<VariableView>> {
    base.union_prefer_right(
        Map::new(
            |reference: i32|
                scope_reference(frame_id, 0) <= reference < scope_reference(frame_id, count),
            |reference: i32|
                scope_variables(chain, contract, reference - scope_reference(frame_id, 0)),
        ),
    )
}

// Answers and events.

/// What the adapter supports.
pub open spec fn adapter_capabilities() -> CapabilitiesView {
    CapabilitiesView {
        supports_configuration_done_request: Some(true),
        supports_function_breakpoints: Some(true),
        supports_step_in_targets_request: Some(true),
        support_terminate_debuggee: Some(true),
        supports_loaded_sources_request: Some(true),
        supports_data_breakpoints: Some(true),
        supports_breakpoint_locations_request: Some(true),
        supports_conditional_breakpoints: None,
        supports_hit_conditional_breakpoints: None,
        supports_evaluate_for_hovers: None,
        exception_breakpoint_filters: None,
        supports_step_back: None,
        supports_set_variable: None,
        supports_restart_frame: None,
        supports_goto_targets_request: None,
        supports_completions_request: None,
        completion_trigger_characters: None,
        supports_modules_request: None,
        additional_module_columns: None,
        supported_checksum_algorithms: None,
        supports_restart_request: None,
        supports_exception_options: None,
        supports_value_formatting_options: None,
        supports_exception_info_request: None,
        support_suspend_debuggee: None,
        supports_delayed_stack_trace_loading: None,
        supports_log_points: None,
        supports_terminate_threads_request: None,
        supports_set_expression: None,
        supports_terminate_request: None,
        supports_read_memory_request: None,
        supports_write_memory_request: None,
        supports_disassemble_request: None,
        supports_cancel_request: None,
        supports_clipboard_context: None,
        supports_stepping_granularity: None,
        supports_instruction_breakpoints: None,
        supports_exception_filter_options: None,
        supports_single_thread_execution_requests: None,
    }
}

/// The one thread that there is.
pub open spec fn main_thread() -> ThreadView {
    ThreadView { id: 0, name: "main"@ }
}

/// The event that tells of a stop of the main thread.
pub open spec fn stop(
    reason: StoppedReason,
    text: Option<Seq<char>>,
    hit_breakpoint_ids: Option<Seq<usize>>,
) -> EventBodyView {
    EventBodyView::Stopped(
        StoppedEventView {
            reason,
            description: None,
            thread_id: Some(0),
            preserve_focus_hint: None,
            text,
            all_threads_stopped: None,
            hit_breakpoint_ids,
        },
    )
}

/// The event that tells of the state in which the engine holds execution.
pub open spec fn held_event(state: State) -> EventBodyView {
    match state {
        State::Start => EventBodyView::Initialized,
        State::Break(breakpoint) => stop(StoppedReason::Breakpoint, None, Some(seq![breakpoint])),
        State::DataBreak(breakpoint) => stop(
            StoppedReason::DataBreakpoint,
            None,
            Some(seq![breakpoint]),
        ),
        State::Finished | State::StepIn | State::StepOver(_) => stop(
            StoppedReason::Step,
            None,
            None,
        ),
        State::Pause => stop(StoppedReason::Pause, None, None),
    }
}

/// The event that carries a text for the user.
pub open spec fn output_event(category: Category, text: Seq<char>) -> EventBodyView {
    EventBodyView::Output(
        OutputEventView {
            category: Some(category),
            output: text,
            group: None,
            variables_reference: None,
            source: None,
            line: None,
            column: None,
            data: None,
        },
    )
}

// Breakpoints.

/// The breakpoint for the engine that a breakpoint of the client stands for, in a contract.
pub open spec fn engine_breakpoint(
    contract: QualifiedContractIdentifierView,
    requested: SourceBreakpointView,
) -> EngineBreakpointView {
    let column = match requested.column {
        Some(column) => column,
        None => 0,
    };
    EngineBreakpointView {
        id: 0,
        verified: true,
        data: BreakpointData::Source { line: requested.line, column: requested.column },
        source: contract,
        span: Some(
            Span {
                start_line: requested.line,
                start_column: column,
                end_line: requested.line,
                end_column: column,
            },
        ),
    }
}

/// What the client is told about a breakpoint that the engine has taken under the number `id`.
pub open spec fn taken_breakpoint(
    source: SourceView,
    requested: SourceBreakpointView,
    id: usize,
) -> BreakpointView {
    BreakpointView {
        id: Some(id),
        verified: true,
        message: requested.log_message,
        source: Some(source),
        line: Some(requested.line),
        column: requested.column,
        end_line: Some(requested.line),
        end_column: requested.column,
        instruction_reference: None,
        offset: None,
    }
}

/// What the client is told about the breakpoints of a request, given the numbers of the engine.
pub open spec fn taken_breakpoints(
    source: SourceView,
    requested: Seq<SourceBreakpointView>,
    ids: Seq<usize>,
) -> Seq<BreakpointView> {
    Seq::new(requested.len(), |i: int| taken_breakpoint(source, requested[i], ids[i]))
}

/// Whether execution goes on after a request.
pub open spec fn resumes(command: RequestCommandView) -> bool {
    match command {
        RequestCommandView::StepIn
        | RequestCommandView::StepOut
        | RequestCommandView::Next
        | RequestCommandView::Continue
        | RequestCommandView::Pause
        | RequestCommandView::Disconnect => true,
        _ => false,
    }
}

/// What comes in from the client.
pub enum ReceivedView {
    Message(ProtocolMessageView),
    /// Something that could not be read.
    Unreadable,
    /// The end of the stream.
    End,
}

/// What came in from the client, as the adapter is handed it.
pub open spec fn received<E>(message: Option<Result<ProtocolMessage, E>>) -> ReceivedView {
    match message {
        Some(Ok(message)) => ReceivedView::Message(message@),
        Some(Err(_)) => ReceivedView::Unreadable,
        None => ReceivedView::End,
    }
}

/// Whether execution goes on after what came in: after a request that lets it, and at the end of the
/// stream.
pub open spec fn ends_wait(received: ReceivedView) -> bool {
    match received {
        ReceivedView::Message(message) => message.message matches MessageKindView::Request(command)
            && resumes(command),
        ReceivedView::Unreadable => false,
        ReceivedView::End => true,
    }
}

impl DebuggerView {
    /// The adapter before any client has talked to it.
    pub open spec fn fresh() -> Self {
        DebuggerView {
            path_to_contract_id: Map::empty(),
            contract_id_to_path: Map::empty(),
            actions: Seq::empty(),
            started: false,
            send_seq: 0,
            launched: None,
            launch_seq: 0,
            current: None,
            init_complete: false,
            stack_frames: Map::empty(),
            scopes: Map::empty(),
            variables: Map::empty(),
        }
    }

    // Building blocks.

    /// One more thing to do.
    pub open spec fn doing(self, action: ActionView) -> Self {
        DebuggerView { actions: self.actions.push(action), ..self }
    }

    /// One more message to send, under the next number.
    pub open spec fn sending(self, message: MessageKindView) -> Self {
        DebuggerView {
            send_seq: self.send_seq + 1,
            ..self.doing(ActionView::Send(ProtocolMessageView { seq: self.send_seq, message }))
        }
    }

    /// One more answer to send.
    pub open spec fn responding(self, response: ResponseView) -> Self {
        self.sending(MessageKindView::Response(response))
    }

    /// One more event to send.
    pub open spec fn notifying(self, body: EventBodyView) -> Self {
        self.sending(MessageKindView::Event(EventView { body: Some(body) }))
    }

    /// The request `seq` was served.
    pub open spec fn serving(self, seq: i64, body: ResponseBodyView) -> Self {
        self.responding(
            ResponseView { request_seq: seq, success: true, message: None, body: Some(body) },
        )
    }

    /// The request `seq` was refused.
    pub open spec fn refusing(self, seq: i64, message: Seq<char>) -> Self {
        self.responding(
            ResponseView { request_seq: seq, success: false, message: Some(message), body: None },
        )
    }

    /// The message `seq`, which was no request, was noticed.
    pub open spec fn acknowledging(self, seq: i64) -> Self {
        self.responding(
            ResponseView { request_seq: seq, success: true, message: None, body: None },
        )
    }

    /// A text for the user.
    pub open spec fn printing(self, category: Category, text: Seq<char>) -> Self {
        self.notifying(output_event(category, text))
    }

    /// Several texts for the user, in order.
    pub open spec fn printing_all(self, category: Category, texts: Seq<Seq<char>>) -> Self
        decreases texts.len(),
    {
        if texts.len() == 0 {
            self
        } else {
            self.printing_all(category, texts.drop_last()).printing(category, texts.last())
        }
    }

    // Requests.

    /// A launch with all that it needs starts the engine, and is answered later.
    pub open spec fn launching(self, seq: i64, arguments: LaunchRequestArgumentsView) -> Self {
        match (arguments.manifest, arguments.expression) {
            (None, _) => self.refusing(seq, "manifest must be specified"@),
            (Some(_), None) => self.refusing(seq, "expression to debug must be specified"@),
            (Some(manifest), Some(expression)) => DebuggerView {
                started: true,
                launched: Some((manifest, expression)),
                launch_seq: seq,
                ..self.doing(ActionView::Start(expression))
            },
        }
    }

    /// The breakpoints of a request go to the engine, and are answered when it has taken them.
    pub open spec fn ordering_breakpoints(
        self,
        seq: i64,
        arguments: SetBreakpointsArgumentsView,
    ) -> Self {
        match arguments.breakpoints {
            Some(requested) => {
                let contract = self.path_to_contract_id[arguments.source.path->0];
                self.doing(
                    ActionView::AddBreakpoints(
                        BreakpointOrderView {
                            seq,
                            arguments,
                            breakpoints: requested.map_values(
                                |breakpoint: SourceBreakpointView|
                                    engine_breakpoint(contract, breakpoint),
                            ),
                        },
                    ),
                )
            },
            None => self.serving(
                seq,
                ResponseBodyView::SetBreakpoints(
                    SetBreakpointsResponseView { breakpoints: Seq::empty() },
                ),
            ),
        }
    }

    /// The engine has taken the breakpoints of a request, under these numbers.
    pub open spec fn reporting_breakpoints(
        self,
        seq: i64,
        source: SourceView,
        requested: Seq<SourceBreakpointView>,
        ids: Seq<usize>,
    ) -> Self {
        self.serving(
            seq,
            ResponseBodyView::SetBreakpoints(
                SetBreakpointsResponseView { breakpoints: taken_breakpoints(source, requested, ids) },
            ),
        )
    }

    /// The threads are listed; the first such request ends the launch.
    pub open spec fn listing_threads(self, seq: i64) -> Self {
        let listed = self.serving(
            seq,
            ResponseBodyView::Threads(ThreadsResponseView { threads: seq![main_thread()] }),
        );
        if self.init_complete {
            listed
        } else {
            DebuggerView {
                init_complete: true,
                ..listed.serving(self.launch_seq, ResponseBodyView::Launch).notifying(
                    stop(StoppedReason::Entry, Some("Stopped at start!!!"@), None),
                )
            }
        }
    }

    /// The frames of the calls on a stack, the innermost first.
    pub open spec fn trace(self, stack: Seq<FunctionIdentifierView>) -> Seq<StackFrameView> {
        user_functions(stack).reverse().map_values(
            |function: FunctionIdentifierView| self.stack_frames[function.identifier],
        )
    }

    /// The variables behind a reference are listed, none where there is nothing behind it.
    pub open spec fn listing_variables(self, seq: i64, reference: i32) -> Self {
        if self.variables.contains_key(reference) {
            self.serving(
                seq,
                ResponseBodyView::Variables(
                    VariablesResponseView { variables: self.variables[reference] },
                ),
            )
        } else {
            self.printing(Category::Console, "unknown variable reference"@).serving(
                seq,
                ResponseBodyView::Variables(VariablesResponseView { variables: Seq::empty() }),
            )
        }
    }

    /// What the request `seq` makes of the adapter.
    pub open spec fn handling(self, seq: i64, command: RequestCommandView) -> Self {
        match command {
            RequestCommandView::Initialize => self.serving(
                seq,
                ResponseBodyView::Initialize(
                    InitializeResponseView { capabilities: adapter_capabilities() },
                ),
            ),
            RequestCommandView::Launch(arguments) => self.launching(seq, arguments),
            RequestCommandView::ConfigurationDone => self.serving(
                seq,
                ResponseBodyView::ConfigurationDone,
            ).serving(self.launch_seq, ResponseBodyView::Launch),
            RequestCommandView::SetBreakpoints(arguments) => self.ordering_breakpoints(
                seq,
                arguments,
            ),
            RequestCommandView::SetExceptionBreakpoints => self.serving(
                seq,
                ResponseBodyView::SetExceptionBreakpoints(
                    SetExceptionBreakpointsResponseView { breakpoints: None },
                ),
            ),
            RequestCommandView::Disconnect => self.doing(ActionView::Quit).serving(
                seq,
                ResponseBodyView::Disconnect,
            ),
            RequestCommandView::Threads => self.listing_threads(seq),
            RequestCommandView::StackTrace => self.serving(
                seq,
                ResponseBodyView::StackTrace(
                    StackTraceResponseView {
                        stack_frames: self.trace(self.current->0.stack),
                        total_frames: Some(self.current->0.stack.len() as i32),
                    },
                ),
            ),
            RequestCommandView::Scopes(arguments) => self.serving(
                seq,
                ResponseBodyView::Scopes(
                    ScopesResponseView { scopes: self.scopes[arguments.frame_id] },
                ),
            ),
            RequestCommandView::Variables(arguments) => self.listing_variables(
                seq,
                arguments.variables_reference,
            ),
            RequestCommandView::StepIn => self.doing(ActionView::StepIn).serving(
                seq,
                ResponseBodyView::StepIn,
            ),
            RequestCommandView::StepOut => self.doing(ActionView::Finish).serving(
                seq,
                ResponseBodyView::StepOut,
            ),
            RequestCommandView::Next => self.doing(
                ActionView::StepOver(self.current->0.expr_id),
            ).serving(seq, ResponseBodyView::Next),
            RequestCommandView::Continue => self.doing(ActionView::ContinueExecution).serving(
                seq,
                ResponseBodyView::Continue(ContinueResponseView { all_threads_continued: None }),
            ),
            RequestCommandView::Pause => self.doing(ActionView::Pause).serving(
                seq,
                ResponseBodyView::Pause,
            ),
            RequestCommandView::Unsupported => self.refusing(seq, "unsupported request"@),
        }
    }

    /// Whether the adapter is in a state to serve a request. Steps need an engine, a step over an
    /// expression and a trace need a place where execution is held, a trace needs a frame for each
    /// call, the scopes of a frame must have been saved, and breakpoints need a known source.
    pub open spec fn can_serve(self, command: RequestCommandView) -> bool {
        match command {
            RequestCommandView::SetBreakpoints(arguments) => match arguments.breakpoints {
                Some(requested) => {
                    &&& arguments.source.path matches Some(path)
                    &&& self.path_to_contract_id.contains_key(path)
                    &&& requested.len() > 0 ==> self.started
                },
                None => true,
            },
            RequestCommandView::StepIn
            | RequestCommandView::StepOut
            | RequestCommandView::Continue
            | RequestCommandView::Pause
            | RequestCommandView::Disconnect => self.started,
            RequestCommandView::Next => self.started && self.current is Some,
            RequestCommandView::StackTrace => {
                &&& self.current matches Some(current)
                &&& self.can_trace(current.stack)
            },
            RequestCommandView::Scopes(arguments) => self.scopes.contains_key(arguments.frame_id),
            _ => true,
        }
    }

    /// Whether each call on a stack that is not a call of a built-in function has a frame.
    pub open spec fn can_trace(self, stack: Seq<FunctionIdentifierView>) -> bool {
        forall|i: int|
            0 <= i < stack.len() && !is_native(#[trigger] stack[i])
                ==> self.stack_frames.contains_key(stack[i].identifier)
    }

    /// What a message of the client makes of the adapter.
    pub open spec fn receiving(self, message: ProtocolMessageView) -> Self {
        match message.message {
            MessageKindView::Request(command) => self.handling(message.seq as i64, command),
            _ => self.acknowledging(message.seq as i64),
        }
    }

    /// What anything that comes in from the client makes of the adapter.
    pub open spec fn taking(self, received: ReceivedView) -> Self {
        match received {
            ReceivedView::Message(message) => self.receiving(message),
            _ => self,
        }
    }

    /// Whether the adapter is in a state to take what came in, and has numbers for the answers.
    pub open spec fn can_take(self, received: ReceivedView) -> bool {
        received matches ReceivedView::Message(message) ==> {
            &&& self.receiving(message).send_seq <= i64::MAX
            &&& message.message matches MessageKindView::Request(command) ==> self.can_serve(command)
        }
    }

    /// Execution goes on.
    pub open spec fn resuming(self) -> Self {
        DebuggerView { current: None, ..self }
    }

    /// The launch is picked up.
    pub open spec fn picking_up(self) -> Self {
        DebuggerView { launched: None, ..self }
    }

    /// What is to be done is handed over.
    pub open spec fn handing_over(self) -> Self {
        DebuggerView { actions: Seq::empty(), ..self }
    }

    /// What anything that comes in before the launch makes of the adapter.
    pub open spec fn taking_before_launch(self, received: ReceivedView) -> Self {
        match received {
            ReceivedView::Unreadable => self,
            _ => self.taking(received).picking_up(),
        }
    }

    /// What anything that comes in while execution is held makes of the adapter.
    pub open spec fn taking_while_held(self, received: ReceivedView) -> Self {
        if ends_wait(received) {
            self.taking(received).resuming()
        } else {
            self.taking(received)
        }
    }

    // Evaluation.

    /// The source of a contract.
    pub open spec fn source_of(self, contract: QualifiedContractIdentifierView) -> SourceView {
        SourceView {
            name: Some(contract.text),
            path: Some(
                if self.contract_id_to_path.contains_key(contract.text) {
                    self.contract_id_to_path[contract.text]
                } else {
                    "debugger"@
                },
            ),
            source_reference: None,
            presentation_hint: None,
            origin: None,
            sources: None,
            adapter_data: None,
            checksums: None,
        }
    }

    /// The frame of the current call at an expression: the frame that the function already has,
    /// moved to the expression, or a new one.
    pub open spec fn frame_at(
        self,
        env: EnvironmentView,
        function: Seq<char>,
        expr: SymbolicExpression,
    ) -> StackFrameView {
        if self.stack_frames.contains_key(function) {
            StackFrameView {
                line: expr.span.start_line,
                column: expr.span.start_column,
                end_line: Some(expr.span.end_line),
                end_column: Some(expr.span.end_column),
                ..self.stack_frames[function]
            }
        } else {
            StackFrameView {
                id: (env.call_stack.len() as i32 + 1) as i32,
                name: function,
                source: Some(self.source_of(env.contract_context.contract_identifier)),
                line: expr.span.start_line,
                column: expr.span.start_column,
                end_line: Some(expr.span.end_line),
                end_column: Some(expr.span.end_column),
                can_restart: None,
                instruction_pointer_reference: None,
                module_id: None,
                presentation_hint: Some(PresentationHint::Normal),
            }
        }
    }

    /// Whether a function has a frame, or there is a number for a new one.
    pub open spec fn can_frame(self, env: EnvironmentView, function: Seq<char>) -> bool {
        self.stack_frames.contains_key(function) || (env.call_stack.len() as i32) < i32::MAX
    }

    /// The scopes of a frame are saved.
    pub open spec fn saving_scopes(
        self,
        frame: StackFrameView,
        chain: Seq<LocalContextView>,
        contract: ContractContextView,
    ) -> Self {
        DebuggerView {
            scopes: self.scopes.insert(frame.id, frame_scopes(frame, chain, contract)),
            variables: with_scopes(
                self.variables,
                frame.id,
                chain,
                contract,
                chain.len() as int + 1,
            ),
            ..self
        }
    }

    /// The frame of the current call and its scopes are saved. Calls of built-in functions have no
    /// frame.
    pub open spec fn recording(
        self,
        env: EnvironmentView,
        chain: Seq<LocalContextView>,
        expr: SymbolicExpression,
    ) -> Self {
        let calls = user_functions(env.call_stack);
        if calls.len() == 0 {
            self
        } else {
            let function = calls.last().identifier;
            let frame = self.frame_at(env, function, expr);
            DebuggerView {
                stack_frames: self.stack_frames.insert(function, frame),
                ..self.saving_scopes(frame, chain, env.contract_context)
            }
        }
    }

    /// The client is told that execution is held at an expression.
    pub open spec fn holding(
        self,
        env: EnvironmentView,
        expr: SymbolicExpression,
        state: State,
    ) -> Self {
        DebuggerView {
            current: Some(
                CurrentView {
                    source: self.source_of(env.contract_context.contract_identifier),
                    span: expr.span,
                    expr_id: expr.id,
                    stack: env.call_stack,
                },
            ),
            ..self.notifying(held_event(state))
        }
    }

    /// What the evaluation of an expression makes of the adapter, given the state in which the
    /// engine holds execution there, if it does.
    pub open spec fn evaluating(
        self,
        env: EnvironmentView,
        chain: Seq<LocalContextView>,
        expr: SymbolicExpression,
        held: Option<State>,
    ) -> Self {
        match held {
            Some(state) => self.recording(env, chain, expr).holding(env, expr, state),
            None => self.recording(env, chain, expr),
        }
    }

    /// Whether the numbers of a frame's scopes are numbers that the protocol can carry.
    pub open spec fn can_number_scopes(
        frame: StackFrameView,
        chain: Seq<LocalContextView>,
    ) -> bool {
        &&& i32::MIN <= scope_reference(frame.id, 0)
        &&& scope_reference(frame.id, chain.len() as int) <= i32::MAX
        &&& forall|i: int|
            0 <= i < chain.len() ==> (#[trigger] chain[i]).variables.len()
                + chain[i].callable_contracts.len() <= usize::MAX
    }

    /// Whether the current call and its scopes can be numbered.
    pub open spec fn can_record(
        self,
        env: EnvironmentView,
        chain: Seq<LocalContextView>,
        expr: SymbolicExpression,
    ) -> bool {
        let calls = user_functions(env.call_stack);
        calls.len() > 0 ==> {
            let function = calls.last().identifier;
            &&& self.can_frame(env, function)
            &&& Self::can_number_scopes(self.frame_at(env, function, expr), chain)
        }
    }

    // The end of the program.

    /// How many messages tell of an end with this many emitted events.
    pub open spec fn messages_at_end(events: nat) -> nat {
        if events == 0 {
            3
        } else {
            events + 4
        }
    }

    /// The program has ended with a value.
    pub open spec fn completing(self, value: Seq<char>, events: Seq<Seq<char>>) -> Self {
        let ended = self.printing(Category::Console, "Execution completed.\n"@);
        let listed = if events.len() == 0 {
            ended
        } else {
            ended.printing(Category::Console, "\nEvents emitted:\n"@).printing_all(
                Category::Stdout,
                events.map_values(|event: Seq<char>| event + "\n"@),
            )
        };
        listed.printing(Category::Console, "\nReturn value:"@).printing(
            Category::Stdout,
            value + "\n"@,
        )
    }
}

} // verus!
