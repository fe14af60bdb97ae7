use dap_debugger::clarity::{
    ContractContext, Environment, FunctionIdentifier, LocalContext, QualifiedContractIdentifier,
    Span, SymbolicExpression,
};
use dap_debugger::debugger::DAPDebugger;
use dap_debugger::engine::{Action, BreakpointData, EngineBreakpoint, State};
use dap_debugger::messages::{
    Category, ContinueResponse, Event, EventBody, LaunchRequestArguments, MessageKind, OutputEvent,
    ProtocolMessage, RequestCommand, Response, ResponseBody, ScopesArguments,
    SetBreakpointsArguments, SetBreakpointsResponse, SetExceptionBreakpointsResponse, StoppedEvent,
    StoppedReason, ThreadsResponse, VariablesArguments, VariablesResponse,
};
use dap_debugger::types::{Breakpoint, Source, SourceBreakpoint, Thread};

fn contract(text: &str) -> QualifiedContractIdentifier {
    QualifiedContractIdentifier { text: text.to_string() }
}

fn source(path: Option<&str>) -> Source {
    Source {
        name: Some("counter.clar".to_string()),
        path: path.map(|p| p.to_string()),
        source_reference: Some(4),
        presentation_hint: None,
        origin: Some("disk".to_string()),
        sources: Some(vec![Source {
            name: None,
            path: Some("/lib.clar".to_string()),
            source_reference: None,
            presentation_hint: None,
            origin: None,
            sources: None,
            adapter_data: None,
            checksums: None,
        }]),
        adapter_data: None,
        checksums: None,
    }
}

fn breakpoint(line: u32, column: Option<u32>, log_message: Option<&str>) -> SourceBreakpoint {
    SourceBreakpoint {
        line,
        column,
        condition: None,
        hit_condition: None,
        log_message: log_message.map(|m| m.to_string()),
    }
}

fn launch(manifest: Option<&str>, expression: Option<&str>) -> RequestCommand {
    RequestCommand::Launch(LaunchRequestArguments {
        manifest: manifest.map(|m| m.to_string()),
        expression: expression.map(|e| e.to_string()),
    })
}

fn launched() -> DAPDebugger {
    let mut debugger = DAPDebugger::new();
    assert!(!debugger.handle_request(1, launch(Some("Clarinet.toml"), Some("(f)"))));
    assert_eq!(debugger.take_actions(), vec![Action::Start("(f)".to_string())]);
    debugger
}

fn env(stack: &[&str]) -> Environment {
    Environment {
        contract_context: ContractContext {
            contract_identifier: contract("S1.counter"),
            variables: vec![],
            meta_data_var: vec![],
            meta_data_map: vec![],
        },
        call_stack: stack
            .iter()
            .map(|f| FunctionIdentifier { identifier: f.to_string() })
            .collect(),
    }
}

fn context() -> LocalContext {
    LocalContext { depth: 0, variables: vec![], callable_contracts: vec![], parent: None }
}

fn expr(id: u64) -> SymbolicExpression {
    SymbolicExpression {
        id,
        span: Span { start_line: 3, start_column: 5, end_line: 3, end_column: 9 },
    }
}

fn response(seq: i64, response: Response) -> Action {
    Action::Send(ProtocolMessage { seq, message: MessageKind::Response(response) })
}

fn served(seq: i64, request_seq: i64, body: ResponseBody) -> Action {
    response(seq, Response { request_seq, success: true, message: None, body: Some(body) })
}

fn refused(seq: i64, request_seq: i64, message: &str) -> Action {
    response(
        seq,
        Response { request_seq, success: false, message: Some(message.to_string()), body: None },
    )
}

fn event(seq: i64, body: EventBody) -> Action {
    Action::Send(ProtocolMessage {
        seq,
        message: MessageKind::Event(Event { body: Some(body) }),
    })
}

fn stopped(reason: StoppedReason, text: Option<&str>, hit: Option<Vec<usize>>) -> EventBody {
    EventBody::Stopped(StoppedEvent {
        reason,
        description: None,
        thread_id: Some(0),
        preserve_focus_hint: None,
        text: text.map(|t| t.to_string()),
        all_threads_stopped: None,
        hit_breakpoint_ids: hit,
    })
}

fn threads() -> ResponseBody {
    ResponseBody::Threads(ThreadsResponse {
        threads: vec![Thread { id: 0, name: "main".to_string() }],
    })
}

#[test]
fn initialize_lists_capabilities() {
    let mut debugger = DAPDebugger::new();
    assert!(!debugger.handle_request(1, RequestCommand::Initialize));
    let actions = debugger.take_actions();
    assert_eq!(actions.len(), 1);
    match &actions[0] {
        Action::Send(ProtocolMessage {
            seq: 0,
            message:
                MessageKind::Response(Response {
                    request_seq: 1,
                    success: true,
                    message: None,
                    body: Some(ResponseBody::Initialize(initialize)),
                }),
        }) => {
            let capabilities = &initialize.capabilities;
            assert_eq!(capabilities.supports_configuration_done_request, Some(true));
            assert_eq!(capabilities.supports_function_breakpoints, Some(true));
            assert_eq!(capabilities.supports_step_in_targets_request, Some(true));
            assert_eq!(capabilities.support_terminate_debuggee, Some(true));
            assert_eq!(capabilities.supports_loaded_sources_request, Some(true));
            assert_eq!(capabilities.supports_data_breakpoints, Some(true));
            assert_eq!(capabilities.supports_breakpoint_locations_request, Some(true));
            assert_eq!(capabilities.supports_conditional_breakpoints, None);
            assert_eq!(capabilities.supports_step_back, None);
            assert_eq!(capabilities.exception_breakpoint_filters, None);
            assert_eq!(capabilities.supports_single_thread_execution_requests, None);
        }
        other => panic!("unexpected action {:?}", other),
    }
}

#[test]
fn launch_needs_a_manifest() {
    let mut debugger = DAPDebugger::new();
    assert!(!debugger.handle_request(2, launch(None, Some("(f)"))));
    assert_eq!(debugger.take_actions(), vec![refused(0, 2, "manifest must be specified")]);
    assert!(!debugger.handle_request(3, launch(None, None)));
    assert_eq!(debugger.take_actions(), vec![refused(1, 3, "manifest must be specified")]);
    assert!(!debugger.is_started());
    assert_eq!(debugger.init(), None);
}

#[test]
fn launch_needs_an_expression() {
    let mut debugger = DAPDebugger::new();
    assert!(!debugger.handle_request(2, launch(Some("Clarinet.toml"), None)));
    assert_eq!(
        debugger.take_actions(),
        vec![refused(0, 2, "expression to debug must be specified")]
    );
    assert!(!debugger.is_started());
    assert_eq!(debugger.init(), None);
}

#[test]
fn launch_is_picked_up_once() {
    let mut debugger = launched();
    assert!(debugger.is_started());
    assert_eq!(debugger.init(), Some(("Clarinet.toml".to_string(), "(f)".to_string())));
    assert_eq!(debugger.init(), None);
}

#[test]
fn unsupported_requests_are_refused() {
    let mut debugger = DAPDebugger::new();
    assert!(!debugger.handle_request(9, RequestCommand::Unsupported));
    assert_eq!(debugger.take_actions(), vec![refused(0, 9, "unsupported request")]);
}

#[test]
fn configuration_done_also_answers_launch() {
    let mut debugger = DAPDebugger::new();
    assert!(!debugger.handle_request(2, launch(Some("Clarinet.toml"), Some("(+ 1 2)"))));
    assert_eq!(debugger.take_actions(), vec![Action::Start("(+ 1 2)".to_string())]);
    assert!(!debugger.handle_request(3, RequestCommand::ConfigurationDone));
    assert_eq!(
        debugger.take_actions(),
        vec![served(0, 3, ResponseBody::ConfigurationDone), served(1, 2, ResponseBody::Launch)]
    );
}

#[test]
fn first_threads_request_ends_the_launch() {
    let mut debugger = DAPDebugger::new();
    debugger.handle_request(17, launch(Some("Clarinet.toml"), Some("(f)")));
    debugger.take_actions();
    assert!(!debugger.handle_request(20, RequestCommand::Threads));
    assert_eq!(
        debugger.take_actions(),
        vec![
            served(0, 20, threads()),
            served(1, 17, ResponseBody::Launch),
            event(2, stopped(StoppedReason::Entry, Some("Stopped at start!!!"), None)),
        ]
    );
    assert!(!debugger.handle_request(21, RequestCommand::Threads));
    assert_eq!(debugger.take_actions(), vec![served(3, 21, threads())]);
}

#[test]
fn breakpoints_go_to_the_engine_and_back() {
    let mut debugger = launched();
    debugger.map_path_to_contract("/counter.clar".to_string(), contract("S1.counter"));
    let requested =
        vec![breakpoint(4, None, Some("here")), breakpoint(9, Some(3), None)];
    assert!(!debugger.handle_request(
        6,
        RequestCommand::SetBreakpoints(SetBreakpointsArguments {
            source: source(Some("/counter.clar")),
            breakpoints: Some(requested),
        })
    ));
    let mut actions = debugger.take_actions();
    assert_eq!(actions.len(), 1);
    let order = match actions.pop() {
        Some(Action::AddBreakpoints(order)) => order,
        other => panic!("unexpected action {:?}", other),
    };
    assert_eq!(order.seq, 6);
    assert_eq!(
        order.breakpoints,
        vec![
            EngineBreakpoint {
                id: 0,
                verified: true,
                data: BreakpointData::Source { line: 4, column: None },
                source: contract("S1.counter"),
                span: Some(Span { start_line: 4, start_column: 0, end_line: 4, end_column: 0 }),
            },
            EngineBreakpoint {
                id: 0,
                verified: true,
                data: BreakpointData::Source { line: 9, column: Some(3) },
                source: contract("S1.counter"),
                span: Some(Span { start_line: 9, start_column: 3, end_line: 9, end_column: 3 }),
            },
        ]
    );
    debugger.breakpoints_added(&order, &vec![11, 12]);
    let told = |id, message: Option<&str>, line, column| Breakpoint {
        id: Some(id),
        verified: true,
        message: message.map(|m| m.to_string()),
        source: Some(source(Some("/counter.clar"))),
        line: Some(line),
        column,
        end_line: Some(line),
        end_column: column,
        instruction_reference: None,
        offset: None,
    };
    assert_eq!(
        debugger.take_actions(),
        vec![served(
            0,
            6,
            ResponseBody::SetBreakpoints(SetBreakpointsResponse {
                breakpoints: vec![told(11, Some("here"), 4, None), told(12, None, 9, Some(3))],
            })
        )]
    );
}

#[test]
fn no_breakpoints_are_answered_at_once() {
    let mut debugger = DAPDebugger::new();
    assert!(!debugger.handle_request(
        6,
        RequestCommand::SetBreakpoints(SetBreakpointsArguments {
            source: source(None),
            breakpoints: None,
        })
    ));
    assert_eq!(
        debugger.take_actions(),
        vec![served(
            0,
            6,
            ResponseBody::SetBreakpoints(SetBreakpointsResponse { breakpoints: vec![] })
        )]
    );
}

#[test]
fn breakpoints_need_a_known_source_and_an_engine() {
    let request = |path: Option<&str>, breakpoints: Vec<SourceBreakpoint>| {
        RequestCommand::SetBreakpoints(SetBreakpointsArguments {
            source: source(path),
            breakpoints: Some(breakpoints),
        })
    };
    let mut debugger = DAPDebugger::new();
    debugger.path_to_contract_id.insert("/counter.clar".to_string(), contract("S1.counter"));
    assert!(debugger.can_serve(1, &request(Some("/counter.clar"), vec![])));
    assert!(!debugger.can_serve(1, &request(Some("/counter.clar"), vec![breakpoint(1, None, None)])));
    assert!(!debugger.can_serve(1, &request(Some("/other.clar"), vec![])));
    assert!(!debugger.can_serve(1, &request(None, vec![])));
    debugger.handle_request(2, launch(Some("m"), Some("e")));
    assert!(debugger.can_serve(3, &request(Some("/counter.clar"), vec![breakpoint(1, None, None)])));
}

#[test]
fn exception_breakpoints_are_acknowledged() {
    let mut debugger = DAPDebugger::new();
    assert!(!debugger.handle_request(8, RequestCommand::SetExceptionBreakpoints));
    assert_eq!(
        debugger.take_actions(),
        vec![served(
            0,
            8,
            ResponseBody::SetExceptionBreakpoints(SetExceptionBreakpointsResponse {
                breakpoints: None
            })
        )]
    );
}

#[test]
fn steps_move_the_engine() {
    let continued = ResponseBody::Continue(ContinueResponse { all_threads_continued: None });
    for (command, action, body) in [
        (RequestCommand::StepIn, Action::StepIn, ResponseBody::StepIn),
        (RequestCommand::StepOut, Action::Finish, ResponseBody::StepOut),
        (RequestCommand::Continue, Action::ContinueExecution, continued),
        (RequestCommand::Pause, Action::Pause, ResponseBody::Pause),
        (RequestCommand::Disconnect, Action::Quit, ResponseBody::Disconnect),
    ] {
        assert!(!DAPDebugger::new().can_serve(5, &command));
        let mut debugger = launched();
        assert!(debugger.can_serve(5, &command));
        assert!(debugger.handle_request(5, command));
        assert_eq!(debugger.take_actions(), vec![action, served(0, 5, body)]);
    }
}

#[test]
fn next_steps_over_the_held_expression() {
    let mut debugger = launched();
    assert!(!debugger.can_serve(5, &RequestCommand::Next));
    debugger.begin_eval(&env(&[]), &context(), &expr(42), Some(State::StepIn));
    debugger.take_actions();
    assert!(debugger.can_serve(5, &RequestCommand::Next));
    assert!(debugger.handle_request(5, RequestCommand::Next));
    assert_eq!(
        debugger.take_actions(),
        vec![Action::StepOver(42), served(1, 5, ResponseBody::Next)]
    );
    debugger.resume();
    assert!(!debugger.can_serve(6, &RequestCommand::Next));
}

#[test]
fn unknown_references_bring_nothing() {
    let mut debugger = DAPDebugger::new();
    assert!(!debugger.can_serve(1, &RequestCommand::Scopes(ScopesArguments { frame_id: 2 })));
    assert!(!debugger.handle_request(
        1,
        RequestCommand::Variables(VariablesArguments { variables_reference: 7 })
    ));
    assert_eq!(
        debugger.take_actions(),
        vec![
            event(
                0,
                EventBody::Output(OutputEvent {
                    category: Some(Category::Console),
                    output: "unknown variable reference".to_string(),
                    group: None,
                    variables_reference: None,
                    source: None,
                    line: None,
                    column: None,
                    data: None,
                })
            ),
            served(
                1,
                1,
                ResponseBody::Variables(VariablesResponse { variables: vec![] })
            ),
        ]
    );
}

#[test]
fn events_and_responses_are_acknowledged() {
    let mut debugger = DAPDebugger::new();
    let acknowledged = |seq, request_seq| {
        response(seq, Response { request_seq, success: true, message: None, body: None })
    };
    debugger.handle_event(3, Event { body: Some(EventBody::Other) });
    debugger.handle_response(
        4,
        Response { request_seq: 0, success: false, message: None, body: None },
    );
    assert_eq!(debugger.take_actions(), vec![acknowledged(0, 3), acknowledged(1, 4)]);
}

#[test]
fn messages_are_dispatched() {
    let mut debugger = launched();
    let message = |seq, message| Some(Ok::<_, String>(ProtocolMessage { seq, message }));
    assert_eq!(
        debugger.wait_for_command(message(2, MessageKind::Request(RequestCommand::Threads))),
        Ok(false)
    );
    assert_eq!(
        debugger.wait_for_command(message(3, MessageKind::Request(RequestCommand::StepIn))),
        Ok(true)
    );
    assert_eq!(
        debugger.wait_for_command(message(4, MessageKind::Event(Event { body: None }))),
        Ok(false)
    );
    let answer = Response { request_seq: 1, success: true, message: None, body: None };
    assert_eq!(
        debugger.wait_for_command(message(5, MessageKind::Response(answer))),
        Ok(false)
    );
    assert_eq!(debugger.take_actions().len(), 7);
    assert_eq!(
        debugger.wait_for_command::<String>(Some(Err("bad header".to_string()))),
        Err("bad header".to_string())
    );
    assert_eq!(debugger.wait_for_command::<String>(None), Ok(true));
    assert_eq!(debugger.take_actions(), vec![]);
}

#[test]
fn session_follows_the_protocol() {
    let mut debugger = DAPDebugger::new();
    debugger.map_path_to_contract("/counter.clar".to_string(), contract("S1.counter"));
    assert!(!debugger.handle_request(1, RequestCommand::Initialize));
    assert_eq!(debugger.init(), None);
    assert!(!debugger.handle_request(2, launch(Some("Clarinet.toml"), Some("(f)"))));
    assert!(debugger.init().is_some());
    debugger.begin_eval(&env(&[]), &context(), &expr(1), Some(State::Start));
    assert!(!debugger.handle_request(
        3,
        RequestCommand::SetBreakpoints(SetBreakpointsArguments {
            source: source(Some("/counter.clar")),
            breakpoints: Some(vec![]),
        })
    ));
    assert!(!debugger.handle_request(4, RequestCommand::Threads));
    assert!(!debugger.handle_request(5, RequestCommand::SetExceptionBreakpoints));
    assert!(!debugger.handle_request(6, RequestCommand::Threads));
    let actions = debugger.take_actions();
    let numbers: Vec<i64> = actions
        .iter()
        .filter_map(|action| match action {
            Action::Send(message) => Some(message.seq),
            _ => None,
        })
        .collect();
    assert_eq!(numbers, vec![0, 1, 2, 3, 4, 5, 6]);
    assert_eq!(actions[1], Action::Start("(f)".to_string()));
    assert_eq!(actions[2], event(1, EventBody::Initialized));
    assert!(matches!(actions[3], Action::AddBreakpoints(_)));
    assert_eq!(actions[4], served(2, 4, threads()));
    assert_eq!(actions[5], served(3, 2, ResponseBody::Launch));
    assert_eq!(
        actions[6],
        event(4, stopped(StoppedReason::Entry, Some("Stopped at start!!!"), None))
    );
    assert_eq!(actions[8], served(6, 6, threads()));
}

#[test]
fn refused_launch_leaves_the_earlier_one() {
    let mut debugger = launched();
    assert!(!debugger.handle_request(7, launch(Some("Other.toml"), None)));
    assert_eq!(
        debugger.take_actions(),
        vec![refused(0, 7, "expression to debug must be specified")]
    );
    assert!(debugger.is_started());
    assert_eq!(debugger.init(), Some(("Clarinet.toml".to_string(), "(f)".to_string())));
    debugger.handle_request(8, RequestCommand::Threads);
    assert_eq!(debugger.take_actions()[1], served(2, 1, ResponseBody::Launch));
}

fn request(seq: i64, command: RequestCommand) -> Option<Result<ProtocolMessage, String>> {
    Some(Ok(ProtocolMessage { seq, message: MessageKind::Request(command) }))
}

#[test]
fn launch_ends_the_first_wait() {
    let mut debugger = DAPDebugger::new();
    assert_eq!(
        debugger.serve_before_launch(request(1, RequestCommand::Initialize)),
        Ok(None)
    );
    assert_eq!(debugger.take_actions().len(), 1);
    assert_eq!(
        debugger.serve_before_launch(Some(Err("bad header".to_string()))),
        Err("bad header".to_string())
    );
    assert_eq!(debugger.serve_before_launch::<String>(None), Ok(None));
    assert_eq!(debugger.serve_before_launch(request(2, launch(None, Some("(f)")))), Ok(None));
    assert_eq!(
        debugger.serve_before_launch(request(3, launch(Some("Clarinet.toml"), Some("(f)")))),
        Ok(Some(("Clarinet.toml".to_string(), "(f)".to_string())))
    );
    assert_eq!(debugger.init(), None);
}

#[test]
fn hold_lasts_until_execution_goes_on() {
    let mut debugger = launched();
    debugger.begin_eval(&env(&[]), &context(), &expr(42), Some(State::StepIn));
    assert!(!debugger.serve_while_held(request(5, RequestCommand::Threads)));
    assert!(!debugger.serve_while_held(Some(Err("bad header".to_string()))));
    assert!(debugger.can_serve(6, &RequestCommand::StackTrace));
    debugger.take_actions();
    assert!(debugger.serve_while_held(request(6, RequestCommand::Next)));
    assert_eq!(
        debugger.take_actions(),
        vec![Action::StepOver(42), served(4, 6, ResponseBody::Next)]
    );
    assert!(!debugger.can_serve(7, &RequestCommand::StackTrace));
    assert!(!debugger.can_take(&request(7, RequestCommand::Next)));

    debugger.begin_eval(&env(&[]), &context(), &expr(43), Some(State::StepIn));
    assert!(debugger.serve_while_held::<String>(None));
    assert!(!debugger.can_take(&request(8, RequestCommand::Next)));
    assert!(debugger.can_take::<String>(&None));
    assert!(debugger.can_take::<String>(&Some(Err("bad header".to_string()))));
}

#[test]
fn launch_is_answered_once_by_threads_requests() {
    let mut debugger = launched();
    assert!(!debugger.handle_request(2, RequestCommand::Threads));
    assert_eq!(debugger.take_actions().len(), 3);
    debugger.begin_eval(&env(&["f"]), &context(), &expr(1), Some(State::Pause));
    debugger.handle_request(3, launch(Some("Other.toml"), Some("(g)")));
    debugger.handle_request(4, RequestCommand::ConfigurationDone);
    debugger.take_actions();
    assert!(!debugger.handle_request(5, RequestCommand::Threads));
    assert_eq!(debugger.take_actions(), vec![served(6, 5, threads())]);
}

#[test]
fn messages_count_from_zero() {
    let mut debugger = DAPDebugger::new();
    let mut numbers = vec![];
    for seq in 0..4 {
        debugger.handle_request(seq, RequestCommand::Initialize);
        debugger.log("note");
        debugger.handle_event(seq, Event { body: None });
        for action in debugger.take_actions() {
            match action {
                Action::Send(message) => numbers.push(message.seq),
                other => panic!("unexpected action {:?}", other),
            }
        }
    }
    assert_eq!(numbers, (0..12).collect::<Vec<i64>>());
}
