//! The adapter: it answers the requests of a client, and tells it where execution is.
//!
//! The adapter itself neither reads nor writes. It is handed what the client sends and where the
//! engine is, and collects what is to be done in [`DAPDebugger::take_actions`].

use crate::clarity::{
    ClarityValue, ContractContext, Environment, FunctionIdentifier, FunctionIdentifierView,
    LocalContext, QualifiedContractIdentifier, Span, SymbolicExpression,
};
use crate::engine::{Action, BreakpointData, BreakpointOrder, EngineBreakpoint, State};
use crate::json::print_json;
use crate::messages::{
    Category, ContinueResponse, Event, EventBody, InitializeResponse, LaunchRequestArguments,
    MessageKind, OutputEvent, ProtocolMessage, RequestCommand,
    RequestCommandView, Response, ResponseBody, ScopesArguments, ScopesResponse,
    SetBreakpointsArguments, SetBreakpointsResponse, SetExceptionBreakpointsResponse,
    StackTraceResponse, StoppedEvent, StoppedReason, ThreadsResponse, VariablesArguments,
    VariablesResponse,
};
use crate::model::{CurrentView, DebuggerView};
use crate::scopes::{context_variables, contract_scope, contract_variables, local_scope};
use crate::text::{line, starts_with};
use crate::types::{
    clone_text, Breakpoint, Capabilities, PresentationHint, Scope, Source, SourceBreakpoint,
    SourceBreakpointView, StackFrame, Thread, Variable,
};
use std::collections::HashMap;
use vstd::hash_map::StringHashMap;
use vstd::prelude::*;

verus! {

broadcast use vstd::std_specs::hash::group_hash_axioms;

/// Where execution is held.
struct Current {
    source: Source,
    span: Span,
    expr_id: u64,
    stack: Vec<FunctionIdentifier>,
}

impl View for Current {
    type V = CurrentView;

    closed spec fn view(&self) -> CurrentView {
        CurrentView {
            source: self.source@,
            span: self.span,
            expr_id: self.expr_id,
            stack: self.stack.deep_view(),
        }
    }
}

impl DeepView for Current {
    type V = CurrentView;

    closed spec fn deep_view(&self) -> CurrentView {
        self@
    }
}

/// The adapter between a client and the engine that runs the program.
pub struct DAPDebugger {
    /// The contract behind each source path.
    pub path_to_contract_id: StringHashMap<QualifiedContractIdentifier>,
    /// The source path of each contract, by the contract's printed name.
    pub contract_id_to_path: StringHashMap<String>,
    actions: Vec<Action>,
    started: bool,
    send_seq: i64,
    launched: Option<(String, String)>,
    launch_seq: i64,
    current: Option<Current>,
    init_complete: bool,
    stack_frames: StringHashMap<StackFrame>,
    scopes: HashMap<i32, Vec<Scope>>,
    variables: HashMap<i32, Vec<Variable>>,
}

impl View for DAPDebugger {
    type V = DebuggerView;

    closed spec fn view(&self) -> DebuggerView {
        DebuggerView {
            path_to_contract_id: self.path_to_contract_id@.map_values(
                |id: QualifiedContractIdentifier| id@,
            ),
            contract_id_to_path: self.contract_id_to_path@.map_values(|path: String| path@),
            actions: self.actions.deep_view(),
            started: self.started,
            send_seq: self.send_seq as int,
            launched: self.launched.deep_view(),
            launch_seq: self.launch_seq,
            current: self.current.deep_view(),
            init_complete: self.init_complete,
            stack_frames: self.stack_frames@.map_values(|frame: StackFrame| frame@),
            scopes: self.scopes@.map_values(|scopes: Vec<Scope>| scopes.deep_view()),
            variables: self.variables@.map_values(
                |variables: Vec<Variable>| variables.deep_view(),
            ),
        }
    }
}

impl DAPDebugger {
    /// An adapter that no client has talked to yet.
    pub fn new() -> (debugger: Self)
        ensures
            debugger@ == DebuggerView::fresh(),
    {
        let debugger = DAPDebugger {
            path_to_contract_id: StringHashMap::new(),
            contract_id_to_path: StringHashMap::new(),
            actions: Vec::new(),
            started: false,
            send_seq: 0,
            launched: None,
            launch_seq: 0,
            current: None,
            init_complete: false,
            stack_frames: StringHashMap::new(),
            scopes: HashMap::new(),
            variables: HashMap::new(),
        };
        assert(debugger@ =~= DebuggerView::fresh());
        debugger
    }

    /// Notes which contract a source path belongs to.
    pub fn map_path_to_contract(&mut self, path: String, contract: QualifiedContractIdentifier)
        ensures
            final(self)@ == (DebuggerView {
                path_to_contract_id: old(self)@.path_to_contract_id.insert(path@, contract@),
                ..old(self)@
            }),
    {
        self.path_to_contract_id.insert(path, contract);
        proof {
            crate::lemmas::lemma_map_values_insert(
                old(self).path_to_contract_id@,
                path@,
                contract,
                |id: QualifiedContractIdentifier| id@,
            );
        }
    }

    /// Notes which source path a contract has.
    pub fn map_contract_to_path(&mut self, contract: &QualifiedContractIdentifier, path: String)
        ensures
            final(self)@ == (DebuggerView {
                contract_id_to_path: old(self)@.contract_id_to_path.insert(contract.text@, path@),
                ..old(self)@
            }),
    {
        self.contract_id_to_path.insert(contract.text.clone(), path);
        proof {
            crate::lemmas::lemma_map_values_insert(
                old(self).contract_id_to_path@,
                contract.text@,
                path,
                |path: String| path@,
            );
        }
    }

    /// Adds one thing to do.
    fn act(&mut self, action: Action)
        ensures
            final(self)@ == old(self)@.doing(action@),
    {
        self.actions.push(action);
        assert(self@ =~= old(self)@.doing(action@));
    }

    /// Sends a message under the next number.
    fn send(&mut self, message: MessageKind)
        requires
            old(self)@.send_seq < i64::MAX,
        ensures
            final(self)@ == old(self)@.sending(message@),
    {
        let ghost kind = message@;
        self.act(Action::Send(ProtocolMessage { seq: self.send_seq, message }));
        self.send_seq = self.send_seq + 1;
        assert(self@ =~= old(self)@.sending(kind));
    }

    fn send_response(&mut self, response: Response)
        requires
            old(self)@.send_seq < i64::MAX,
        ensures
            final(self)@ == old(self)@.responding(response@),
    {
        self.send(MessageKind::Response(response));
    }

    fn send_event(&mut self, body: EventBody)
        requires
            old(self)@.send_seq < i64::MAX,
        ensures
            final(self)@ == old(self)@.notifying(body@),
    {
        self.send(MessageKind::Event(Event { body: Some(body) }));
    }

    // Receiving

    /// Serves a message of the client: `Some(Ok(_))` is a message, `Some(Err(_))` one that could not
    /// be read, and `None` the end of the stream. Returns whether execution should go on.
    pub fn wait_for_command<E>(&mut self, message: Option<Result<ProtocolMessage, E>>) -> (proceed:
        Result<bool, E>)
        requires
            old(self)@.can_take(crate::model::received(message)),
        ensures
            proceed == match message {
                Some(Err(error)) => Err::<bool, E>(error),
                _ => Ok::<bool, E>(crate::model::ends_wait(crate::model::received(message))),
            },
            final(self)@ == old(self)@.taking(crate::model::received(message)),
    {
        match message {
            Some(Ok(message)) => match message.message {
                MessageKind::Request(command) => Ok(self.handle_request(message.seq, command)),
                MessageKind::Response(response) => {
                    self.handle_response(message.seq, response);
                    Ok(false)
                },
                MessageKind::Event(event) => {
                    self.handle_event(message.seq, event);
                    Ok(false)
                },
            },
            Some(Err(error)) => Err(error),
            None => Ok(true),
        }
    }

    /// Serves a message of the client that comes in before the launch, and picks the launch up if
    /// there is one now.
    pub fn serve_before_launch<E>(&mut self, message: Option<Result<ProtocolMessage, E>>) -> (launched:
        Result<Option<(String, String)>, E>)
        requires
            old(self)@.can_take(crate::model::received(message)),
        ensures
            match message {
                Some(Err(error)) => launched == Err::<Option<(String, String)>, E>(error),
                _ => {
                    &&& launched matches Ok(launched)
                    &&& launched.deep_view() == old(self)@.taking(
                        crate::model::received(message),
                    ).launched
                },
            },
            final(self)@ == old(self)@.taking_before_launch(crate::model::received(message)),
    {
        match self.wait_for_command(message) {
            Ok(_) => Ok(self.init()),
            Err(error) => Err(error),
        }
    }

    /// Serves a message of the client that comes in while execution is held. Returns whether
    /// execution goes on, in which case it is held no longer. One that could not be read is passed
    /// over.
    pub fn serve_while_held<E>(&mut self, message: Option<Result<ProtocolMessage, E>>) -> (resumed:
        bool)
        requires
            old(self)@.can_take(crate::model::received(message)),
        ensures
            resumed == crate::model::ends_wait(crate::model::received(message)),
            final(self)@ == old(self)@.taking_while_held(crate::model::received(message)),
    {
        match self.wait_for_command(message) {
            Ok(proceed) => {
                if proceed {
                    self.resume();
                }
                proceed
            },
            Err(_) => false,
        }
    }

    /// Serves the request `seq`. Returns whether execution should go on.
    pub fn handle_request(&mut self, seq: i64, command: RequestCommand) -> (proceed: bool)
        requires
            old(self)@.can_serve(command@),
            old(self)@.handling(seq, command@).send_seq <= i64::MAX,
        ensures
            proceed == crate::model::resumes(command@),
            final(self)@ == old(self)@.handling(seq, command@),
    {
        match command {
            RequestCommand::Initialize => self.initialize(seq),
            RequestCommand::Launch(arguments) => self.launch(seq, arguments),
            RequestCommand::ConfigurationDone => self.configuration_done(seq),
            RequestCommand::SetBreakpoints(arguments) => self.set_breakpoints(seq, arguments),
            RequestCommand::SetExceptionBreakpoints => self.set_exception_breakpoints(seq),
            RequestCommand::Disconnect => self.quit(seq),
            RequestCommand::Threads => self.threads(seq),
            RequestCommand::StackTrace => self.stack_trace(seq),
            RequestCommand::Scopes(arguments) => self.scopes(seq, arguments),
            RequestCommand::Variables(arguments) => self.variables(seq, arguments),
            RequestCommand::StepIn => self.step_in(seq),
            RequestCommand::StepOut => self.step_out(seq),
            RequestCommand::Next => self.next(seq),
            RequestCommand::Continue => self.continue_(seq),
            RequestCommand::Pause => self.pause(seq),
            RequestCommand::Unsupported => {
                self.refuse(seq, "unsupported request");
                false
            },
        }
    }

    /// Takes notice of the event `seq`.
    pub fn handle_event(&mut self, seq: i64, event: Event)
        requires
            old(self)@.send_seq < i64::MAX,
        ensures
            final(self)@ == old(self)@.acknowledging(seq),
    {
        self.send_response(Response { request_seq: seq, success: true, message: None, body: None });
    }

    /// Takes notice of the response `seq`.
    pub fn handle_response(&mut self, seq: i64, response: Response)
        requires
            old(self)@.send_seq < i64::MAX,
        ensures
            final(self)@ == old(self)@.acknowledging(seq),
    {
        self.send_response(Response { request_seq: seq, success: true, message: None, body: None });
    }

    // Request handlers

    fn serve(&mut self, seq: i64, body: ResponseBody)
        requires
            old(self)@.send_seq < i64::MAX,
        ensures
            final(self)@ == old(self)@.serving(seq, body@),
    {
        self.send_response(
            Response { request_seq: seq, success: true, message: None, body: Some(body) },
        );
    }

    fn refuse(&mut self, seq: i64, message: &str)
        requires
            old(self)@.send_seq < i64::MAX,
        ensures
            final(self)@ == old(self)@.refusing(seq, message@),
    {
        self.send_response(
            Response {
                request_seq: seq,
                success: false,
                message: Some(message.to_string()),
                body: None,
            },
        );
    }

    fn initialize(&mut self, seq: i64) -> (proceed: bool)
        requires
            old(self)@.send_seq < i64::MAX,
        ensures
            !proceed,
            final(self)@ == old(self)@.handling(seq, RequestCommandView::Initialize),
    {
        let capabilities = Capabilities {
            supports_configuration_done_request: Some(true),
            supports_function_breakpoints: Some(true),
            supports_step_in_targets_request: Some(true),
            support_terminate_debuggee: Some(true),
            supports_loaded_sources_request: Some(true),
            supports_data_breakpoints: Some(true),
            supports_breakpoint_locations_request: Some(true),
            supports_conditional_breakpoints: None,
            supports_hit_conditional_breakpoints: None,
            supports_evaluate_for_hovers: None,
            exception_breakpoint_filters: None,
            supports_step_back: None,
            supports_set_variable: None,
            supports_restart_frame: None,
            supports_goto_targets_request: None,
            supports_completions_request: None,
            completion_trigger_characters: None,
            supports_modules_request: None,
            additional_module_columns: None,
            supported_checksum_algorithms: None,
            supports_restart_request: None,
            supports_exception_options: None,
            supports_value_formatting_options: None,
            supports_exception_info_request: None,
            support_suspend_debuggee: None,
            supports_delayed_stack_trace_loading: None,
            supports_log_points: None,
            supports_terminate_threads_request: None,
            supports_set_expression: None,
            supports_terminate_request: None,
            supports_read_memory_request: None,
            supports_write_memory_request: None,
            supports_disassemble_request: None,
            supports_cancel_request: None,
            supports_clipboard_context: None,
            supports_stepping_granularity: None,
            supports_instruction_breakpoints: None,
            supports_exception_filter_options: None,
            supports_single_thread_execution_requests: None,
        };
        self.serve(seq, ResponseBody::Initialize(InitializeResponse { capabilities }));
        false
    }

    fn launch(&mut self, seq: i64, arguments: LaunchRequestArguments) -> (proceed: bool)
        requires
            old(self)@.launching(seq, arguments@).send_seq <= i64::MAX,
        ensures
            !proceed,
            final(self)@ == old(self)@.launching(seq, arguments@),
    {
        // Verify that the manifest and expression were specified
        let manifest = match &arguments.manifest {
            Some(manifest) => manifest.clone(),
            None => {
                self.refuse(seq, "manifest must be specified");
                return false;
            },
        };
        let expression = match &arguments.expression {
            Some(expression) => expression.clone(),
            None => {
                self.refuse(seq, "expression to debug must be specified");
                return false;
            },
        };

        self.act(Action::Start(expression.clone()));
        self.started = true;
        self.launched = Some((manifest, expression));
        self.launch_seq = seq;
        assert(self@ =~= old(self)@.launching(seq, arguments@));
        false
    }

    fn configuration_done(&mut self, seq: i64) -> (proceed: bool)
        requires
            old(self)@.send_seq + 1 < i64::MAX,
        ensures
            !proceed,
            final(self)@ == old(self)@.handling(seq, RequestCommandView::ConfigurationDone),
    {
        self.serve(seq, ResponseBody::ConfigurationDone);
        // Now that configuration is done, we can respond to the launch
        self.serve(self.launch_seq, ResponseBody::Launch);
        false
    }

    fn set_breakpoints(&mut self, seq: i64, arguments: SetBreakpointsArguments) -> (proceed: bool)
        requires
            old(self)@.can_serve(RequestCommandView::SetBreakpoints(arguments@)),
            old(self)@.ordering_breakpoints(seq, arguments@).send_seq <= i64::MAX,
        ensures
            !proceed,
            final(self)@ == old(self)@.ordering_breakpoints(seq, arguments@),
    {
        match &arguments.breakpoints {
            Some(requested) => {
                let breakpoints = self.engine_breakpoints(&arguments.source, requested);
                self.act(
                    Action::AddBreakpoints(BreakpointOrder { seq, arguments, breakpoints }),
                );
            },
            None => {
                let breakpoints: Vec<Breakpoint> = Vec::new();
                assert(breakpoints.deep_view() =~= Seq::empty());
                self.serve(
                    seq,
                    ResponseBody::SetBreakpoints(SetBreakpointsResponse { breakpoints }),
                );
            },
        }
        false
    }

    /// The breakpoints for the engine that those of the client in `source` stand for.
    fn engine_breakpoints(&self, source: &Source, requested: &Vec<SourceBreakpoint>) -> (breakpoints:
        Vec<EngineBreakpoint>)
        requires
            source@.path is Some,
            self@.path_to_contract_id.contains_key(source@.path->0),
        ensures
            ({
                let contract = self@.path_to_contract_id[source@.path->0];
                breakpoints.deep_view() == requested.deep_view().map_values(
                    |breakpoint: SourceBreakpointView|
                        crate::model::engine_breakpoint(contract, breakpoint),
                )
            }),
    {
        let path = source.path.as_ref().unwrap();
        let contract = self.path_to_contract_id.get(path.as_str()).unwrap();
        let mut breakpoints: Vec<EngineBreakpoint> = Vec::new();
        for i in 0..requested.len()
            invariant
                breakpoints.len() == i,
                forall|j: int|
                    0 <= j < i ==> (#[trigger] breakpoints@[j])@ == crate::model::engine_breakpoint(
                        contract@,
                        requested@[j]@,
                    ),
        {
            let line: u32 = requested[i].line;
            let column: u32 = match requested[i].column {
                Some(column) => column,
                None => 0,
            };
            breakpoints.push(
                EngineBreakpoint {
                    id: 0,
                    verified: true,
                    data: BreakpointData::Source { line, column: requested[i].column },
                    source: contract.clone(),
                    span: Some(
                        Span {
                            start_line: line,
                            start_column: column,
                            end_line: line,
                            end_column: column,
                        },
                    ),
                },
            );
        }
        assert(breakpoints.deep_view() =~= requested.deep_view().map_values(
            |breakpoint: SourceBreakpointView|
                crate::model::engine_breakpoint(contract@, breakpoint),
        ));
        breakpoints
    }

    /// Takes notice that the engine has taken the breakpoints of an order, under the numbers `ids`.
    pub fn breakpoints_added(&mut self, order: &BreakpointOrder, ids: &Vec<usize>)
        requires
            order.arguments.breakpoints is Some,
            ids@.len() == order.arguments.breakpoints->0@.len(),
            old(self)@.send_seq < i64::MAX,
        ensures
            final(self)@ == old(self)@.reporting_breakpoints(
                order.seq,
                order.arguments.source@,
                order.arguments.breakpoints->0.deep_view(),
                ids@,
            ),
    {
        let requested = order.arguments.breakpoints.as_ref().unwrap();
        let mut breakpoints: Vec<Breakpoint> = Vec::new();
        for i in 0..requested.len()
            invariant
                breakpoints.len() == i,
                ids@.len() == requested@.len(),
                forall|j: int|
                    0 <= j < i ==> (#[trigger] breakpoints@[j])@ == crate::model::taken_breakpoint(
                        order.arguments.source@,
                        requested@[j]@,
                        ids@[j],
                    ),
        {
            let breakpoint = &requested[i];
            breakpoints.push(
                Breakpoint {
                    id: Some(ids[i]),
                    verified: true,
                    message: clone_text(&breakpoint.log_message),
                    source: Some(order.arguments.source.clone()),
                    line: Some(breakpoint.line),
                    column: breakpoint.column,
                    end_line: Some(breakpoint.line),
                    end_column: breakpoint.column,
                    instruction_reference: None,
                    offset: None,
                },
            );
        }
        assert(breakpoints.deep_view() =~= crate::model::taken_breakpoints(
            order.arguments.source@,
            requested.deep_view(),
            ids@,
        ));
        self.serve(
            order.seq,
            ResponseBody::SetBreakpoints(SetBreakpointsResponse { breakpoints }),
        );
    }

    fn set_exception_breakpoints(&mut self, seq: i64) -> (proceed: bool)
        requires
            old(self)@.send_seq < i64::MAX,
        ensures
            !proceed,
            final(self)@ == old(self)@.handling(seq, RequestCommandView::SetExceptionBreakpoints),
    {
        self.serve(
            seq,
            ResponseBody::SetExceptionBreakpoints(
                SetExceptionBreakpointsResponse { breakpoints: None },
            ),
        );
        false
    }

    fn threads(&mut self, seq: i64) -> (proceed: bool)
        requires
            old(self)@.listing_threads(seq).send_seq <= i64::MAX,
        ensures
            !proceed,
            final(self)@ == old(self)@.listing_threads(seq),
    {
        // There is only ever 1 thread
        let threads: Vec<Thread> = vec![Thread { id: 0, name: "main".to_string() }];
        assert(threads.deep_view() =~= seq![crate::model::main_thread()]);
        self.serve(seq, ResponseBody::Threads(ThreadsResponse { threads }));

        // Clients do not always send a ConfigurationDone request, so the first request for the
        // threads counts as the end of configuration.
        if !self.init_complete {
            self.serve(self.launch_seq, ResponseBody::Launch);
            self.send_event(
                stop(StoppedReason::Entry, Some("Stopped at start!!!".to_string()), None),
            );
            self.init_complete = true;
            assert(self@ =~= old(self)@.listing_threads(seq));
        }
        false
    }

    fn stack_trace(&mut self, seq: i64) -> (proceed: bool)
        requires
            old(self)@.can_serve(RequestCommandView::StackTrace),
            old(self)@.send_seq < i64::MAX,
        ensures
            !proceed,
            final(self)@ == old(self)@.handling(seq, RequestCommandView::StackTrace),
    {
        let current = self.current.as_ref().unwrap();
        let stack_frames = self.trace(&current.stack);
        let total_frames: i32 = current.stack.len() as i32;
        self.serve(
            seq,
            ResponseBody::StackTrace(
                StackTraceResponse { stack_frames, total_frames: Some(total_frames) },
            ),
        );
        false
    }

    /// The frames of the calls on a stack, the innermost first.
    fn trace(&self, stack: &Vec<FunctionIdentifier>) -> (frames: Vec<StackFrame>)
        requires
            self@.can_trace(stack.deep_view()),
        ensures
            frames.deep_view() == self@.trace(stack.deep_view()),
    {
        let ghost calls = stack.deep_view();
        let mut frames: Vec<StackFrame> = Vec::new();
        let mut i: usize = stack.len();
        proof {
            reveal(Seq::filter);
            assert(frames.deep_view() =~= self@.trace(calls.skip(i as int)));
        }
        while i > 0
            invariant
                i <= stack.len(),
                calls == stack.deep_view(),
                self@.can_trace(calls),
                frames.deep_view() == self@.trace(calls.skip(i as int)),
            decreases i,
        {
            i = i - 1;
            let function = &stack[i].identifier;
            let ghost before = frames.deep_view();
            proof {
                let inner = calls.skip(i + 1);
                let user = |function: FunctionIdentifierView| !crate::model::is_native(function);
                assert(calls[i as int].identifier == function@);
                assert(calls.skip(i as int) =~= seq![calls[i as int]] + inner);
                inner.lemma_filter_prepend(calls[i as int], user);
                assert(crate::model::user_functions(calls.skip(i as int)).reverse() =~= if user(
                    calls[i as int],
                ) {
                    crate::model::user_functions(inner).reverse().push(calls[i as int])
                } else {
                    crate::model::user_functions(inner).reverse()
                });
            }
            if !starts_with(function.as_str(), "_native_:") {
                frames.push(self.stack_frames.get(function.as_str()).unwrap().clone());
                assert(frames.deep_view() =~= before.push(
                    self@.stack_frames[calls[i as int].identifier],
                ));
            }
            assert(frames.deep_view() =~= self@.trace(calls.skip(i as int)));
        }
        assert(calls.skip(0) =~= calls);
        frames
    }

    fn scopes(&mut self, seq: i64, arguments: ScopesArguments) -> (proceed: bool)
        requires
            old(self)@.scopes.contains_key(arguments.frame_id),
            old(self)@.send_seq < i64::MAX,
        ensures
            !proceed,
            final(self)@ == old(self)@.handling(seq, RequestCommandView::Scopes(arguments@)),
    {
        let scopes = self.scopes.get(&arguments.frame_id).unwrap().clone();
        self.serve(seq, ResponseBody::Scopes(ScopesResponse { scopes }));
        false
    }

    fn variables(&mut self, seq: i64, arguments: VariablesArguments) -> (proceed: bool)
        requires
            old(self)@.listing_variables(seq, arguments.variables_reference).send_seq <= i64::MAX,
        ensures
            !proceed,
            final(self)@ == old(self)@.listing_variables(seq, arguments.variables_reference),
    {
        let variables = match self.variables.get(&arguments.variables_reference) {
            Some(variables) => variables.clone(),
            None => {
                self.log("unknown variable reference");
                let none: Vec<Variable> = Vec::new();
                assert(none.deep_view() =~= Seq::empty());
                none
            },
        };
        self.serve(seq, ResponseBody::Variables(VariablesResponse { variables }));
        false
    }

    fn step_in(&mut self, seq: i64) -> (proceed: bool)
        requires
            old(self)@.started,
            old(self)@.send_seq < i64::MAX,
        ensures
            proceed,
            final(self)@ == old(self)@.handling(seq, RequestCommandView::StepIn),
    {
        self.act(Action::StepIn);
        self.serve(seq, ResponseBody::StepIn);
        true
    }

    fn step_out(&mut self, seq: i64) -> (proceed: bool)
        requires
            old(self)@.started,
            old(self)@.send_seq < i64::MAX,
        ensures
            proceed,
            final(self)@ == old(self)@.handling(seq, RequestCommandView::StepOut),
    {
        self.act(Action::Finish);
        self.serve(seq, ResponseBody::StepOut);
        true
    }

    fn next(&mut self, seq: i64) -> (proceed: bool)
        requires
            old(self)@.started,
            old(self)@.current is Some,
            old(self)@.send_seq < i64::MAX,
        ensures
            proceed,
            final(self)@ == old(self)@.handling(seq, RequestCommandView::Next),
    {
        let expr_id: u64 = self.current.as_ref().unwrap().expr_id;
        self.act(Action::StepOver(expr_id));
        self.serve(seq, ResponseBody::Next);
        true
    }

    fn continue_(&mut self, seq: i64) -> (proceed: bool)
        requires
            old(self)@.started,
            old(self)@.send_seq < i64::MAX,
        ensures
            proceed,
            final(self)@ == old(self)@.handling(seq, RequestCommandView::Continue),
    {
        self.act(Action::ContinueExecution);
        self.serve(
            seq,
            ResponseBody::Continue(ContinueResponse { all_threads_continued: None }),
        );
        true
    }

    fn pause(&mut self, seq: i64) -> (proceed: bool)
        requires
            old(self)@.started,
            old(self)@.send_seq < i64::MAX,
        ensures
            proceed,
            final(self)@ == old(self)@.handling(seq, RequestCommandView::Pause),
    {
        self.act(Action::Pause);
        self.serve(seq, ResponseBody::Pause);
        true
    }

    fn quit(&mut self, seq: i64) -> (proceed: bool)
        requires
            old(self)@.started,
            old(self)@.send_seq < i64::MAX,
        ensures
            proceed,
            final(self)@ == old(self)@.handling(seq, RequestCommandView::Disconnect),
    {
        self.act(Action::Quit);
        self.serve(seq, ResponseBody::Disconnect);
        true
    }

    // Output

    /// Shows a message of the adapter itself.
    pub fn log(&mut self, message: &str)
        requires
            old(self)@.send_seq < i64::MAX,
        ensures
            final(self)@ == old(self)@.printing(Category::Console, message@),
    {
        self.print(Category::Console, message);
    }

    /// Shows output of the program.
    pub fn stdout(&mut self, message: &str)
        requires
            old(self)@.send_seq < i64::MAX,
        ensures
            final(self)@ == old(self)@.printing(Category::Stdout, message@),
    {
        self.print(Category::Stdout, message);
    }

    /// Shows an error of the program.
    pub fn stderr(&mut self, message: &str)
        requires
            old(self)@.send_seq < i64::MAX,
        ensures
            final(self)@ == old(self)@.printing(Category::Stderr, message@),
    {
        self.print(Category::Stderr, message);
    }

    fn print(&mut self, category: Category, message: &str)
        requires
            old(self)@.send_seq < i64::MAX,
        ensures
            final(self)@ == old(self)@.printing(category, message@),
    {
        self.send_event(
            EventBody::Output(
                OutputEvent {
                    category: Some(category),
                    output: message.to_string(),
                    group: None,
                    variables_reference: None,
                    source: None,
                    line: None,
                    column: None,
                    data: None,
                },
            ),
        );
    }

    // Evaluation

    /// Saves the scopes of a frame, and the variables in them.
    fn save_scopes_for_frame(
        &mut self,
        stack_frame: &StackFrame,
        local_context: &LocalContext,
        contract_context: &ContractContext,
    )
        requires
            DebuggerView::can_number_scopes(stack_frame@, local_context.chain()),
        ensures
            final(self)@ == old(self)@.saving_scopes(
                stack_frame@,
                local_context.chain(),
                contract_context@,
            ),
    {
        let ghost frame = stack_frame@;
        let ghost chain = local_context.chain();
        let ghost contract = contract_context@;
        let mut scopes: Vec<Scope> = Vec::new();
        let mut current_context: Option<&LocalContext> = Some(local_context);
        assert(crate::model::with_scopes(old(self)@.variables, frame.id, chain, contract, 0)
            =~= old(self)@.variables);
        assert(chain.skip(0) =~= chain);

        // Local variable scopes
        while current_context.is_some()
            invariant
                frame == stack_frame@,
                contract == contract_context@,
                DebuggerView::can_number_scopes(frame, chain),
                scopes.len() <= chain.len(),
                scopes.deep_view() == crate::model::frame_scopes(frame, chain, contract).take(
                    scopes.len() as int,
                ),
                match current_context {
                    Some(context) => context.chain() == chain.skip(scopes.len() as int),
                    None => scopes.len() == chain.len(),
                },
                self@ == (DebuggerView {
                    variables: crate::model::with_scopes(
                        old(self)@.variables,
                        frame.id,
                        chain,
                        contract,
                        scopes.len() as int,
                    ),
                    ..old(self)@
                }),
            decreases chain.len() - scopes.len(),
        {
            let context = current_context.unwrap();
            let index: usize = scopes.len();
            proof {
                assert(context.chain().len() > 0 && context.chain()[0] == context.bindings());
                assert(chain[index as int] == context.bindings());
            }
            let scope = local_scope(stack_frame, context, index);
            let scope_id: i32 = scope.variables_reference;
            let ghost before = *self;
            let ghost saved = scopes.deep_view();
            let variables = context_variables(context);
            scopes.push(scope);
            self.variables.insert(scope_id, variables);
            proof {
                crate::lemmas::lemma_map_values_insert(
                    before.variables@,
                    scope_id,
                    variables,
                    |variables: Vec<Variable>| variables.deep_view(),
                );
                crate::lemmas::lemma_with_scopes_next(
                    old(self)@.variables,
                    frame.id,
                    chain,
                    contract,
                    index as int,
                );
                assert(scopes.deep_view() =~= saved.push(scope@));
                assert(scopes.deep_view() =~= crate::model::frame_scopes(
                    frame,
                    chain,
                    contract,
                ).take(index + 1));
                assert(context.chain().skip(1) =~= chain.skip(index + 1));
                if context.parent is Some {
                    assert(context.chain().skip(1) =~= context.parent->0.chain());
                }
            }
            current_context = match &context.parent {
                Some(parent) => Some(parent),
                None => None,
            };
        }

        // Contract global scope
        let scope = contract_scope(stack_frame, contract_context, scopes.len());
        let scope_id: i32 = scope.variables_reference;
        let ghost before = *self;
        let ghost saved = scopes.deep_view();
        let variables = contract_variables(contract_context);
        scopes.push(scope);
        self.variables.insert(scope_id, variables);
        self.scopes.insert(stack_frame.id, scopes);
        proof {
            crate::lemmas::lemma_map_values_insert(
                before.variables@,
                scope_id,
                variables,
                |variables: Vec<Variable>| variables.deep_view(),
            );
            crate::lemmas::lemma_with_scopes_next(
                old(self)@.variables,
                frame.id,
                chain,
                contract,
                chain.len() as int,
            );
            assert(scopes.deep_view() =~= saved.push(scope@));
            assert(scopes.deep_view() =~= crate::model::frame_scopes(frame, chain, contract));
            crate::lemmas::lemma_map_values_insert(
                before.scopes@,
                stack_frame.id,
                scopes,
                |scopes: Vec<Scope>| scopes.deep_view(),
            );
        }
    }

    /// The source of a contract.
    fn source_of(&self, contract: &QualifiedContractIdentifier) -> (source: Source)
        ensures
            source@ == self@.source_of(contract@),
    {
        let path = match self.contract_id_to_path.get(contract.text.as_str()) {
            Some(path) => path.clone(),
            None => "debugger".to_string(),
        };
        Source {
            name: Some(contract.text.clone()),
            path: Some(path),
            source_reference: None,
            presentation_hint: None,
            origin: None,
            sources: None,
            adapter_data: None,
            checksums: None,
        }
    }

    /// The frame of a call of `function`, moved to `expr`.
    fn frame_at(&self, env: &Environment, function: &String, expr: &SymbolicExpression) -> (frame:
        StackFrame)
        requires
            self@.can_frame(env@, function@),
        ensures
            frame@ == self@.frame_at(env@, function@, *expr),
    {
        match self.stack_frames.get(function.as_str()) {
            Some(stack_top) => {
                let mut frame = stack_top.clone();
                frame.line = expr.span.start_line;
                frame.column = expr.span.start_column;
                frame.end_line = Some(expr.span.end_line);
                frame.end_column = Some(expr.span.end_column);
                frame
            },
            None => StackFrame {
                id: env.call_stack.len() as i32 + 1,
                name: function.clone(),
                source: Some(self.source_of(&env.contract_context.contract_identifier)),
                line: expr.span.start_line,
                column: expr.span.start_column,
                end_line: Some(expr.span.end_line),
                end_column: Some(expr.span.end_column),
                can_restart: None,
                instruction_pointer_reference: None,
                module_id: None,
                presentation_hint: Some(PresentationHint::Normal),
            },
        }
    }

    /// Saves the frame of the call that is about to evaluate `expr`, and its scopes.
    pub fn record(&mut self, env: &Environment, context: &LocalContext, expr: &SymbolicExpression)
        requires
            old(self)@.can_record(env@, context.chain(), *expr),
        ensures
            final(self)@ == old(self)@.recording(env@, context.chain(), *expr),
    {
        // Find the current function frame, ignoring builtin functions.
        match current_function(&env.call_stack) {
            Some(current) => {
                let function = current.identifier.clone();
                let frame = self.frame_at(env, &function, expr);
                self.save_scopes_for_frame(&frame, context, &env.contract_context);
                let ghost before = *self;
                self.stack_frames.insert(function, frame);
                proof {
                    crate::lemmas::lemma_map_values_insert(
                        before.stack_frames@,
                        function@,
                        frame,
                        |frame: StackFrame| frame@,
                    );
                }
            },
            None => {},
        }
    }

    /// Takes notice that `expr` is about to be evaluated. `held` is the state in which the engine
    /// holds execution there, if it does; then the client is told, and its requests are served
    /// until one of them lets execution go on (see [`DAPDebugger::serve_while_held`]).
    pub fn begin_eval(
        &mut self,
        env: &Environment,
        context: &LocalContext,
        expr: &SymbolicExpression,
        held: Option<State>,
    )
        requires
            old(self)@.started,
            old(self)@.can_record(env@, context.chain(), *expr),
            held is Some ==> old(self)@.send_seq < i64::MAX,
        ensures
            final(self)@ == old(self)@.evaluating(env@, context.chain(), *expr, held),
    {
        self.record(env, context, expr);
        match held {
            Some(state) => self.hold(env, expr, state),
            None => {},
        }
    }

    /// Tells the client that the engine holds execution before `expr`, and in which state.
    pub fn hold(&mut self, env: &Environment, expr: &SymbolicExpression, state: State)
        requires
            old(self)@.send_seq < i64::MAX,
        ensures
            final(self)@ == old(self)@.holding(env@, *expr, state),
    {
        self.send_event(held_event(state));
        // Save the current state, which may be needed to respond to incoming requests
        let source = self.source_of(&env.contract_context.contract_identifier);
        self.current = Some(
            Current {
                source,
                span: expr.span,
                expr_id: expr.id,
                stack: env.call_stack.clone(),
            },
        );
        assert(self@ =~= old(self)@.holding(env@, *expr, state));
    }

    /// Takes notice that execution goes on.
    pub fn resume(&mut self)
        ensures
            final(self)@ == old(self)@.resuming(),
    {
        self.current = None;
        assert(self@ =~= old(self)@.resuming());
    }

    // The end of the program

    /// Tells the client how the program ended: with a value and the events that it emitted, or with
    /// an error.
    pub fn complete(&mut self, result: Result<(ClarityValue, Vec<serde_json::Value>), String>)
        requires
            match result {
                Ok((_, events)) => old(self)@.send_seq + DebuggerView::messages_at_end(
                    events@.len(),
                ) <= i64::MAX,
                Err(_) => old(self)@.send_seq < i64::MAX,
            },
        ensures
            match result {
                Ok((value, events)) => final(self)@ == old(self)@.completing(
                    value.text@,
                    events@.map_values(
                        |event: serde_json::Value| crate::json::json_text(event),
                    ),
                ),
                Err(error) => final(self)@ == old(self)@.printing(Category::Stderr, error@),
            },
    {
        match result {
            Ok((value, events)) => {
                let mut texts: Vec<String> = Vec::new();
                for i in 0..events.len()
                    invariant
                        texts.len() == i,
                        forall|j: int|
                            0 <= j < i ==> (#[trigger] texts@[j])@ == crate::json::json_text(
                                events@[j],
                            ),
                {
                    texts.push(print_json(&events[i]));
                }
                assert(texts.deep_view() =~= events@.map_values(
                    |event: serde_json::Value| crate::json::json_text(event),
                ));
                self.completed(&value, &texts);
            },
            Err(error) => self.stderr(error.as_str()),
        }
    }

    /// Tells the client that the program ended with `value` and emitted events that print as
    /// `events`.
    pub fn completed(&mut self, value: &ClarityValue, events: &Vec<String>)
        requires
            old(self)@.send_seq + DebuggerView::messages_at_end(events@.len()) <= i64::MAX,
        ensures
            final(self)@ == old(self)@.completing(value.text@, events.deep_view()),
    {
        self.log("Execution completed.\n");
        if events.len() > 0 {
            self.log("\nEvents emitted:\n");
            let ghost listed = self@;
            let ghost lines = events.deep_view().map_values(|event: Seq<char>| event + "\n"@);
            assert(lines.take(0) =~= Seq::empty());
            for i in 0..events.len()
                invariant
                    lines == events.deep_view().map_values(|event: Seq<char>| event + "\n"@),
                    self@ == listed.printing_all(Category::Stdout, lines.take(i as int)),
                    listed.send_seq + events@.len() + 2 <= i64::MAX,
            {
                proof {
                    crate::lemmas::lemma_printing_all_len(
                        listed,
                        Category::Stdout,
                        lines.take(i as int),
                    );
                    assert(lines.take(i + 1).drop_last() =~= lines.take(i as int));
                }
                self.stdout(line(&events[i]).as_str());
            }
            proof {
                assert(lines.take(events.len() as int) =~= lines);
                crate::lemmas::lemma_printing_all_len(listed, Category::Stdout, lines);
            }
        }
        self.log("\nReturn value:");
        self.stdout(line(&value.text).as_str());
    }

    // Around the adapter

    /// Picks up the manifest and the expression of a launch, if there has been one.
    pub fn init(&mut self) -> (launched: Option<(String, String)>)
        ensures
            launched.deep_view() == old(self)@.launched,
            final(self)@ == old(self)@.picking_up(),
    {
        let launched = self.launched.take();
        assert(self@ =~= old(self)@.picking_up());
        launched
    }

    /// Returns whether the request `seq` can be served now.
    pub fn can_serve(&self, seq: i64, command: &RequestCommand) -> (yes: bool)
        ensures
            yes == (self@.can_serve(command@) && self@.handling(seq, command@).send_seq
                <= i64::MAX),
    {
        let messages: u64 = match command {
            RequestCommand::Launch(arguments) => {
                if arguments.manifest.is_some() && arguments.expression.is_some() {
                    0
                } else {
                    1
                }
            },
            RequestCommand::SetBreakpoints(arguments) => {
                if arguments.breakpoints.is_some() {
                    0
                } else {
                    1
                }
            },
            RequestCommand::ConfigurationDone => 2,
            RequestCommand::Threads => {
                if self.init_complete {
                    1
                } else {
                    3
                }
            },
            RequestCommand::Variables(arguments) => {
                if self.variables.contains_key(&arguments.variables_reference) {
                    1
                } else {
                    2
                }
            },
            _ => 1,
        };
        let ready = match command {
            RequestCommand::SetBreakpoints(arguments) => match (
                &arguments.breakpoints,
                &arguments.source.path,
            ) {
                (Some(requested), Some(path)) => {
                    self.path_to_contract_id.contains_key(path.as_str()) && (requested.len() == 0
                        || self.started)
                },
                (Some(_), None) => false,
                (None, _) => true,
            },
            RequestCommand::StepIn
            | RequestCommand::StepOut
            | RequestCommand::Continue
            | RequestCommand::Pause
            | RequestCommand::Disconnect => self.started,
            RequestCommand::Next => self.started && self.current.is_some(),
            RequestCommand::StackTrace => match &self.current {
                Some(current) => self.can_trace(&current.stack),
                None => false,
            },
            RequestCommand::Scopes(arguments) => self.scopes.contains_key(&arguments.frame_id),
            _ => true,
        };
        ready && self.can_send(messages)
    }

    /// Returns whether what came in can be taken now.
    pub fn can_take<E>(&self, message: &Option<Result<ProtocolMessage, E>>) -> (yes: bool)
        ensures
            yes == self@.can_take(crate::model::received(*message)),
    {
        match message {
            Some(Ok(message)) => match &message.message {
                MessageKind::Request(command) => self.can_serve(message.seq, command),
                _ => self.can_send(1),
            },
            _ => true,
        }
    }

    /// Returns whether there are numbers left for this many messages.
    pub fn can_send(&self, messages: u64) -> (yes: bool)
        ensures
            yes == (self@.send_seq + messages <= i64::MAX),
    {
        self.send_seq as i128 + messages as i128 <= i64::MAX as i128
    }

    /// Returns whether there are numbers left to tell of this end of the program.
    pub fn can_complete(
        &self,
        result: &Result<(ClarityValue, Vec<serde_json::Value>), String>,
    ) -> (yes: bool)
        ensures
            yes == match result {
                Ok((_, events)) => self@.send_seq + DebuggerView::messages_at_end(events@.len())
                    <= i64::MAX,
                Err(_) => self@.send_seq < i64::MAX,
            },
    {
        let messages: i128 = match result {
            Ok((_, events)) => {
                if events.len() == 0 {
                    3
                } else {
                    events.len() as i128 + 4
                }
            },
            Err(_) => 1,
        };
        self.send_seq as i128 + messages <= i64::MAX as i128
    }

    /// Returns whether each call on a stack that is not a call of a built-in function has a frame.
    fn can_trace(&self, stack: &Vec<FunctionIdentifier>) -> (yes: bool)
        ensures
            yes == self@.can_trace(stack.deep_view()),
    {
        for i in 0..stack.len()
            invariant
                forall|j: int|
                    0 <= j < i && !crate::model::is_native(#[trigger] stack.deep_view()[j])
                        ==> self@.stack_frames.contains_key(stack.deep_view()[j].identifier),
        {
            let function = &stack[i].identifier;
            assert(stack.deep_view()[i as int].identifier == function@);
            if !starts_with(function.as_str(), "_native_:") && !self.stack_frames.contains_key(
                function.as_str(),
            ) {
                return false;
            }
        }
        true
    }

    /// Returns whether the engine has been started.
    pub fn is_started(&self) -> (yes: bool)
        ensures
            yes == self@.started,
    {
        self.started
    }

    /// Returns whether the current call and its scopes can be numbered.
    pub fn can_record(
        &self,
        env: &Environment,
        context: &LocalContext,
        expr: &SymbolicExpression,
    ) -> (yes: bool)
        ensures
            yes == self@.can_record(env@, context.chain(), *expr),
    {
        match current_function(&env.call_stack) {
            Some(current) => {
                let function = &current.identifier;
                (self.stack_frames.contains_key(function.as_str()) || (env.call_stack.len() as i32)
                    < i32::MAX) && can_number_scopes(&self.frame_at(env, function, expr), context)
            },
            None => true,
        }
    }

    /// Hands over what is to be done, in order.
    pub fn take_actions(&mut self) -> (actions: Vec<Action>)
        ensures
            actions.deep_view() == old(self)@.actions,
            final(self)@ == old(self)@.handing_over(),
    {
        let mut actions: Vec<Action> = Vec::new();
        std::mem::swap(&mut actions, &mut self.actions);
        assert(self@ =~= old(self)@.handing_over());
        actions
    }
}

/// The innermost call on a stack that is not a call of a built-in function.
fn current_function(stack: &Vec<FunctionIdentifier>) -> (current: Option<&FunctionIdentifier>)
    ensures
        ({
            let calls = crate::model::user_functions(stack.deep_view());
            match current {
                Some(function) => calls.len() > 0 && function@ == calls.last(),
                None => calls.len() == 0,
            }
        }),
{
    let ghost user = |function: FunctionIdentifierView| !crate::model::is_native(function);
    let mut i: usize = stack.len();
    assert(stack.deep_view().take(i as int) =~= stack.deep_view());
    while i > 0
        invariant
            i <= stack.len(),
            user == |function: FunctionIdentifierView| !crate::model::is_native(function),
            crate::model::user_functions(stack.deep_view()) == stack.deep_view().take(
                i as int,
            ).filter(user),
        decreases i,
    {
        i = i - 1;
        proof {
            let rest = stack.deep_view().take(i as int);
            rest.lemma_filter_push(stack.deep_view()[i as int], user);
            assert(stack.deep_view().take(i + 1) =~= rest.push(stack.deep_view()[i as int]));
        }
        if !starts_with(stack[i].identifier.as_str(), "_native_:") {
            return Some(&stack[i]);
        }
    }
    proof {
        reveal(Seq::filter);
    }
    None
}

/// Returns whether the numbers of a frame's scopes are numbers that the protocol can carry.
fn can_number_scopes(stack_frame: &StackFrame, local_context: &LocalContext) -> (yes: bool)
    ensures
        yes == DebuggerView::can_number_scopes(stack_frame@, local_context.chain()),
{
    let ghost chain = local_context.chain();
    let first: i64 = stack_frame.id as i64 * 1000;
    if first < i32::MIN as i64 {
        return false;
    }
    let mut count: i64 = 0;
    let mut current_context: Option<&LocalContext> = Some(local_context);
    assert(chain.skip(0) =~= chain);
    while current_context.is_some()
        invariant
            chain == local_context.chain(),
            first == stack_frame.id * 1000,
            i32::MIN <= first,
            0 <= count <= chain.len(),
            count == 0 || first + count <= i32::MAX,
            match current_context {
                Some(context) => context.chain() == chain.skip(count as int),
                None => count == chain.len(),
            },
            forall|i: int|
                0 <= i < count ==> (#[trigger] chain[i]).variables.len()
                    + chain[i].callable_contracts.len() <= usize::MAX,
            current_context is None ==> count > 0,
            chain.len() > 0,
        decreases chain.len() - count,
    {
        let context = current_context.unwrap();
        proof {
            assert(context.chain().len() > 0 && context.chain()[0] == context.bindings());
            assert(chain[count as int] == context.bindings());
            assert(context.chain().skip(1) =~= chain.skip(count + 1));
            if context.parent is Some {
                assert(context.chain().skip(1) =~= context.parent->0.chain());
            }
        }
        if context.callable_contracts.len() > usize::MAX - context.variables.len() {
            return false;
        }
        count = count + 1;
        if first + count > i32::MAX as i64 {
            return false;
        }
        current_context = match &context.parent {
            Some(parent) => Some(parent),
            None => None,
        };
    }
    true
}

fn stop(reason: StoppedReason, text: Option<String>, hit_breakpoint_ids: Option<Vec<usize>>) -> (body:
    EventBody)
    ensures
        body@ == crate::model::stop(reason, text.deep_view(), hit_breakpoint_ids.deep_view()),
{
    EventBody::Stopped(
        StoppedEvent {
            reason,
            description: None,
            thread_id: Some(0),
            preserve_focus_hint: None,
            text,
            all_threads_stopped: None,
            hit_breakpoint_ids,
        },
    )
}

/// The event that tells of the state in which the engine holds execution.
fn held_event(state: State) -> (body: EventBody)
    ensures
        body@ == crate::model::held_event(state),
{
    match state {
        // The client answers this event with its configuration (e.g. breakpoints).
        State::Start => EventBody::Initialized,
        State::Break(breakpoint) => {
            let hit: Vec<usize> = vec![breakpoint];
            assert(hit.deep_view() =~= seq![breakpoint]);
            stop(StoppedReason::Breakpoint, None, Some(hit))
        },
        State::DataBreak(breakpoint) => {
            let hit: Vec<usize> = vec![breakpoint];
            assert(hit.deep_view() =~= seq![breakpoint]);
            stop(StoppedReason::DataBreakpoint, None, Some(hit))
        },
        State::Finished | State::StepIn | State::StepOver(_) => {
            stop(StoppedReason::Step, None, None)
        },
        State::Pause => stop(StoppedReason::Pause, None, None),
    }
}

} // verus!
