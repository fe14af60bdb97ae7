use dap_debugger::clarity::{
    type_for_value, Binding, CallableContract, ClarityValue, ContractContext, DataMap,
    DataVariable, Environment, FunctionIdentifier, LocalContext, QualifiedContractIdentifier,
    SequenceData, Span, SymbolicExpression, ValueKind,
};
use dap_debugger::debugger::DAPDebugger;
use dap_debugger::engine::{Action, State};
use dap_debugger::messages::{
    Category, EventBody, LaunchRequestArguments, MessageKind, ProtocolMessage, RequestCommand,
    ResponseBody, ScopesArguments, StoppedReason, VariablesArguments,
};
use dap_debugger::types::{PresentationHint, Scope, StackFrame, Variable};

fn value(kind: ValueKind, text: &str) -> ClarityValue {
    ClarityValue { kind, text: text.to_string() }
}

fn binding(name: &str, kind: ValueKind, text: &str) -> Binding {
    Binding { name: name.to_string(), value: value(kind, text) }
}

fn contract(text: &str) -> QualifiedContractIdentifier {
    QualifiedContractIdentifier { text: text.to_string() }
}

fn env(stack: &[&str]) -> Environment {
    Environment {
        contract_context: ContractContext {
            contract_identifier: contract("S1.counter"),
            variables: vec![binding("limit", ValueKind::UInt, "u10")],
            meta_data_var: vec![DataVariable {
                name: "count".to_string(),
                value: value(ValueKind::Int, "3"),
                value_type: "int".to_string(),
            }],
            meta_data_map: vec![DataMap {
                name: "balances".to_string(),
                key_type: "principal".to_string(),
                value_type: "uint".to_string(),
            }],
        },
        call_stack: stack
            .iter()
            .map(|f| FunctionIdentifier { identifier: f.to_string() })
            .collect(),
    }
}

fn contexts() -> LocalContext {
    LocalContext {
        depth: 1,
        variables: vec![binding("x", ValueKind::Bool, "true")],
        callable_contracts: vec![],
        parent: Some(Box::new(LocalContext {
            depth: 0,
            variables: vec![binding("a", ValueKind::Int, "1"), binding("b", ValueKind::Int, "2")],
            callable_contracts: vec![CallableContract {
                name: "token".to_string(),
                contract_id: contract("S2.token"),
                trait_id: "S2.ft.trait".to_string(),
            }],
            parent: None,
        })),
    }
}

fn empty_context() -> LocalContext {
    LocalContext { depth: 0, variables: vec![], callable_contracts: vec![], parent: None }
}

fn expr(id: u64, line: u32) -> SymbolicExpression {
    SymbolicExpression {
        id,
        span: Span { start_line: line, start_column: 5, end_line: line + 1, end_column: 9 },
    }
}

fn started() -> DAPDebugger {
    let mut debugger = DAPDebugger::new();
    debugger.handle_request(
        1,
        RequestCommand::Launch(LaunchRequestArguments {
            manifest: Some("Clarinet.toml".to_string()),
            expression: Some("(f)".to_string()),
        }),
    );
    debugger.take_actions();
    debugger
}

fn answer(debugger: &mut DAPDebugger, command: RequestCommand) -> ResponseBody {
    assert!(debugger.can_serve(99, &command));
    assert!(!debugger.handle_request(99, command));
    let mut actions = debugger.take_actions();
    assert_eq!(actions.len(), 1);
    match actions.pop() {
        Some(Action::Send(ProtocolMessage { message: MessageKind::Response(response), .. })) => {
            assert_eq!(response.request_seq, 99);
            assert!(response.success);
            response.body.unwrap()
        }
        other => panic!("unexpected action {:?}", other),
    }
}

fn trace(debugger: &mut DAPDebugger) -> (Vec<StackFrame>, Option<i32>) {
    match answer(debugger, RequestCommand::StackTrace) {
        ResponseBody::StackTrace(trace) => (trace.stack_frames, trace.total_frames),
        other => panic!("unexpected body {:?}", other),
    }
}

fn scopes(debugger: &mut DAPDebugger, frame_id: i32) -> Vec<Scope> {
    match answer(debugger, RequestCommand::Scopes(ScopesArguments { frame_id })) {
        ResponseBody::Scopes(response) => response.scopes,
        other => panic!("unexpected body {:?}", other),
    }
}

fn variables(debugger: &mut DAPDebugger, variables_reference: i32) -> Vec<Variable> {
    let command = RequestCommand::Variables(VariablesArguments { variables_reference });
    match answer(debugger, command) {
        ResponseBody::Variables(response) => response.variables,
        other => panic!("unexpected body {:?}", other),
    }
}

fn shown(variables: &[Variable]) -> Vec<(&str, &str, &str)> {
    variables
        .iter()
        .map(|v| (v.name.as_str(), v.value.as_str(), v.var_type.as_ref().unwrap().as_str()))
        .collect()
}

fn outputs(debugger: &mut DAPDebugger) -> Vec<(i64, Option<Category>, String)> {
    debugger
        .take_actions()
        .into_iter()
        .map(|action| match action {
            Action::Send(ProtocolMessage { seq, message: MessageKind::Event(event) }) => {
                match event.body {
                    Some(EventBody::Output(output)) => (seq, output.category, output.output),
                    other => panic!("unexpected body {:?}", other),
                }
            }
            other => panic!("unexpected action {:?}", other),
        })
        .collect()
}

#[test]
fn each_value_has_a_type() {
    let sequence = |data| value(ValueKind::Sequence(data), "");
    assert_eq!(type_for_value(&value(ValueKind::Int, "1")), "int");
    assert_eq!(type_for_value(&value(ValueKind::UInt, "u1")), "uint");
    assert_eq!(type_for_value(&value(ValueKind::Bool, "true")), "bool");
    let tuple = ValueKind::Tuple("(tuple (a int))".to_string());
    assert_eq!(type_for_value(&value(tuple, "")), "(tuple (a int))");
    assert_eq!(type_for_value(&value(ValueKind::Principal, "S1")), "principal");
    let optional = ValueKind::Optional("(optional int)".to_string());
    assert_eq!(type_for_value(&value(optional, "none")), "(optional int)");
    let response = ValueKind::Response("(response int bool)".to_string());
    assert_eq!(type_for_value(&value(response, "(ok 1)")), "(response int bool)");
    assert_eq!(type_for_value(&sequence(SequenceData::Buffer)), "buff");
    assert_eq!(type_for_value(&sequence(SequenceData::String)), "string");
    assert_eq!(type_for_value(&sequence(SequenceData::List)), "list");
}

#[test]
fn each_state_has_an_event() {
    for (state, reason, hit) in [
        (State::Break(7), StoppedReason::Breakpoint, Some(vec![7])),
        (State::DataBreak(8), StoppedReason::DataBreakpoint, Some(vec![8])),
        (State::Finished, StoppedReason::Step, None),
        (State::StepIn, StoppedReason::Step, None),
        (State::StepOver(1), StoppedReason::Step, None),
        (State::Pause, StoppedReason::Pause, None),
    ] {
        let mut debugger = started();
        debugger.begin_eval(&env(&[]), &empty_context(), &expr(1, 1), Some(state));
        match debugger.take_actions().pop() {
            Some(Action::Send(ProtocolMessage { seq: 0, message: MessageKind::Event(event) })) => {
                match event.body {
                    Some(EventBody::Stopped(stopped)) => {
                        assert_eq!(stopped.reason, reason);
                        assert_eq!(stopped.hit_breakpoint_ids, hit);
                        assert_eq!(stopped.thread_id, Some(0));
                        assert_eq!(stopped.text, None);
                    }
                    other => panic!("unexpected body {:?}", other),
                }
            }
            other => panic!("unexpected action {:?}", other),
        }
    }
    let mut debugger = started();
    debugger.begin_eval(&env(&[]), &empty_context(), &expr(1, 1), Some(State::Start));
    match debugger.take_actions().pop() {
        Some(Action::Send(ProtocolMessage { message: MessageKind::Event(event), .. })) => {
            assert_eq!(event.body, Some(EventBody::Initialized));
        }
        other => panic!("unexpected action {:?}", other),
    }
}

#[test]
fn free_evaluation_is_silent() {
    let mut debugger = started();
    debugger.begin_eval(&env(&["S1.counter:f"]), &contexts(), &expr(1, 1), None);
    assert_eq!(debugger.take_actions(), vec![]);
    assert!(!debugger.can_serve(2, &RequestCommand::StackTrace));
    assert!(debugger.can_serve(2, &RequestCommand::Scopes(ScopesArguments { frame_id: 2 })));
}

#[test]
fn trace_leaves_out_builtin_functions() {
    let mut debugger = started();
    debugger.map_contract_to_path(&contract("S1.counter"), "/counter.clar".to_string());
    debugger.begin_eval(&env(&["S1.counter:f"]), &contexts(), &expr(1, 1), None);
    let stack = ["S1.counter:f", "_native_:let", "S1.counter:g", "_native_:+"];
    debugger.begin_eval(&env(&stack), &contexts(), &expr(2, 20), Some(State::StepIn));
    debugger.take_actions();
    let (frames, total) = trace(&mut debugger);
    assert_eq!(total, Some(4));
    assert_eq!(frames.len(), 2);
    assert_eq!(frames[0].id, 5);
    assert_eq!(frames[0].name, "S1.counter:g");
    assert_eq!(frames[0].line, 20);
    assert_eq!(frames[0].column, 5);
    assert_eq!(frames[0].end_line, Some(21));
    assert_eq!(frames[0].end_column, Some(9));
    assert_eq!(frames[0].presentation_hint, Some(PresentationHint::Normal));
    let source = frames[0].source.as_ref().unwrap();
    assert_eq!(source.name.as_ref().unwrap(), "S1.counter");
    assert_eq!(source.path.as_ref().unwrap(), "/counter.clar");
    assert_eq!(frames[1].id, 2);
    assert_eq!(frames[1].name, "S1.counter:f");
    assert_eq!(frames[1].line, 1);
}

#[test]
fn unknown_contracts_belong_to_the_debugger() {
    let mut debugger = started();
    debugger.begin_eval(&env(&["f"]), &contexts(), &expr(1, 1), Some(State::StepIn));
    debugger.take_actions();
    let (frames, _) = trace(&mut debugger);
    assert_eq!(frames[0].source.as_ref().unwrap().path.as_ref().unwrap(), "debugger");
}

#[test]
fn calls_without_a_frame_cannot_be_traced() {
    let mut debugger = started();
    debugger.begin_eval(&env(&["f", "g"]), &contexts(), &expr(1, 1), Some(State::StepIn));
    debugger.take_actions();
    assert!(!debugger.can_serve(2, &RequestCommand::StackTrace));
}

#[test]
fn frames_move_but_keep_their_identity() {
    let mut debugger = started();
    debugger.begin_eval(&env(&["f"]), &contexts(), &expr(1, 1), None);
    let deeper = ["f", "_native_:if"];
    debugger.begin_eval(&env(&deeper), &empty_context(), &expr(2, 8), Some(State::Break(1)));
    debugger.take_actions();
    let (frames, total) = trace(&mut debugger);
    assert_eq!(total, Some(2));
    assert_eq!(frames.len(), 1);
    assert_eq!(frames[0].id, 2);
    assert_eq!(frames[0].line, 8);
    assert_eq!(scopes(&mut debugger, 2).len(), 2);
}

#[test]
fn saved_scopes_are_shown() {
    let mut debugger = started();
    debugger.begin_eval(&env(&["f"]), &contexts(), &expr(1, 1), Some(State::StepIn));
    debugger.take_actions();
    let (frames, _) = trace(&mut debugger);
    let scopes = scopes(&mut debugger, frames[0].id);
    assert_eq!(scopes.len(), 3);
    assert_eq!(scopes[0].name, "Locals");
    assert_eq!(scopes[0].presentation_hint, Some(PresentationHint::Locals));
    assert_eq!(scopes[0].variables_reference, 2000);
    assert_eq!(scopes[0].named_variables, Some(1));
    assert!(!scopes[0].expensive);
    assert_eq!(scopes[0].source, frames[0].source);
    assert_eq!(scopes[1].name, "Arguments");
    assert_eq!(scopes[1].presentation_hint, Some(PresentationHint::Arguments));
    assert_eq!(scopes[1].variables_reference, 2001);
    assert_eq!(scopes[1].named_variables, Some(3));
    assert_eq!(scopes[2].name, "Contract Variables");
    assert_eq!(scopes[2].presentation_hint, None);
    assert_eq!(scopes[2].variables_reference, 2002);
    assert_eq!(scopes[2].named_variables, Some(1));
    assert!(scopes[2].expensive);

    let locals = variables(&mut debugger, 2000);
    assert_eq!(shown(&locals), vec![("x", "true", "bool")]);
    let arguments = variables(&mut debugger, 2001);
    assert_eq!(
        shown(&arguments),
        vec![("a", "1", "int"), ("b", "2", "int"), ("token", "S2.token", "S2.ft.trait")]
    );
    let globals = variables(&mut debugger, 2002);
    assert_eq!(
        shown(&globals),
        vec![
            ("limit", "u10", "uint"),
            ("count", "3", "int"),
            ("balances", "", "{principal: uint}"),
        ]
    );
    assert_eq!(globals[2].variables_reference, 0);
    assert_eq!(globals[2].named_variables, None);
}

#[test]
fn too_many_scopes_cannot_be_recorded() {
    let debugger = started();
    let stack: Vec<String> = (0..2_147_483).map(|i| i.to_string()).collect();
    let names: Vec<&str> = stack.iter().map(|s| s.as_str()).collect();
    assert!(!debugger.can_record(&env(&names), &empty_context(), &expr(1, 1)));
    assert!(debugger.can_record(&env(&names[1..]), &empty_context(), &expr(1, 1)));
    assert!(debugger.can_record(&env(&[]), &empty_context(), &expr(1, 1)));
}

#[test]
fn output_has_its_channel() {
    let mut debugger = DAPDebugger::new();
    debugger.log("one");
    debugger.stdout("two");
    debugger.stderr("three");
    assert_eq!(
        outputs(&mut debugger),
        vec![
            (0, Some(Category::Console), "one".to_string()),
            (1, Some(Category::Stdout), "two".to_string()),
            (2, Some(Category::Stderr), "three".to_string()),
        ]
    );
}

#[test]
fn end_with_events_lists_them() {
    let mut debugger = started();
    let mut object = serde_json::Map::new();
    object.insert("amount".to_string(), serde_json::Value::from(5));
    object.insert("to".to_string(), serde_json::Value::String("S\"2".to_string()));
    let events = vec![
        serde_json::Value::Object(object),
        serde_json::Value::Array(vec![serde_json::Value::Null, serde_json::Value::Bool(true)]),
    ];
    debugger.complete(Ok((value(ValueKind::Bool, "true"), events)));
    assert_eq!(
        outputs(&mut debugger),
        vec![
            (0, Some(Category::Console), "Execution completed.\n".to_string()),
            (1, Some(Category::Console), "\nEvents emitted:\n".to_string()),
            (2, Some(Category::Stdout), "{\"amount\":5,\"to\":\"S\\\"2\"}\n".to_string()),
            (3, Some(Category::Stdout), "[null,true]\n".to_string()),
            (4, Some(Category::Console), "\nReturn value:".to_string()),
            (5, Some(Category::Stdout), "true\n".to_string()),
        ]
    );
}

#[test]
fn end_without_events_shows_the_value() {
    let mut debugger = started();
    debugger.complete(Ok((value(ValueKind::Int, "42"), vec![])));
    assert_eq!(
        outputs(&mut debugger),
        vec![
            (0, Some(Category::Console), "Execution completed.\n".to_string()),
            (1, Some(Category::Console), "\nReturn value:".to_string()),
            (2, Some(Category::Stdout), "42\n".to_string()),
        ]
    );
}

#[test]
fn end_with_printed_events() {
    let mut debugger = started();
    debugger.completed(&value(ValueKind::Int, "42"), &vec!["{}".to_string()]);
    assert_eq!(
        outputs(&mut debugger),
        vec![
            (0, Some(Category::Console), "Execution completed.\n".to_string()),
            (1, Some(Category::Console), "\nEvents emitted:\n".to_string()),
            (2, Some(Category::Stdout), "{}\n".to_string()),
            (3, Some(Category::Console), "\nReturn value:".to_string()),
            (4, Some(Category::Stdout), "42\n".to_string()),
        ]
    );
}

#[test]
fn end_with_an_error_goes_to_stderr() {
    let mut debugger = started();
    assert!(debugger.can_complete(&Err("runtime error".to_string())));
    debugger.complete(Err("runtime error".to_string()));
    assert_eq!(
        outputs(&mut debugger),
        vec![(0, Some(Category::Stderr), "runtime error".to_string())]
    );
    assert!(debugger.can_send(3));
    assert!(!debugger.can_send(u64::MAX));
}

#[test]
fn everything_shown_can_be_asked_for() {
    let mut debugger = started();
    debugger.begin_eval(&env(&["f"]), &contexts(), &expr(1, 1), None);
    debugger.begin_eval(&env(&["f", "g"]), &empty_context(), &expr(2, 9), Some(State::Pause));
    debugger.take_actions();
    let (frames, _) = trace(&mut debugger);
    assert_eq!(frames.iter().map(|frame| frame.id).collect::<Vec<_>>(), vec![3, 2]);
    let mut references = vec![];
    for frame in &frames {
        for scope in scopes(&mut debugger, frame.id) {
            variables(&mut debugger, scope.variables_reference);
            references.push(scope.variables_reference);
        }
    }
    assert_eq!(references, vec![3000, 3001, 2000, 2001, 2002]);
}

#[test]
fn other_frames_are_left_as_they_were() {
    let mut debugger = started();
    debugger.begin_eval(&env(&["f"]), &contexts(), &expr(1, 1), None);
    let scopes_before = scopes(&mut debugger, 2);
    let variables_before = variables(&mut debugger, 2001);
    debugger.begin_eval(&env(&["f", "g"]), &empty_context(), &expr(2, 9), None);
    debugger.begin_eval(&env(&["f", "g", "h"]), &contexts(), &expr(3, 9), None);
    assert_eq!(scopes(&mut debugger, 2), scopes_before);
    assert_eq!(variables(&mut debugger, 2001), variables_before);
    assert!(variables_before.iter().all(|variable| variable.variables_reference == 0));
}

#[test]
fn recording_twice_is_recording_once() {
    let mut debugger = started();
    debugger.record(&env(&["f"]), &contexts(), &expr(1, 1));
    let scopes_before = scopes(&mut debugger, 2);
    let variables_before = variables(&mut debugger, 2001);
    debugger.record(&env(&["f"]), &contexts(), &expr(1, 1));
    assert_eq!(scopes(&mut debugger, 2), scopes_before);
    assert_eq!(variables(&mut debugger, 2001), variables_before);
    debugger.hold(&env(&["f"]), &expr(1, 1), State::Break(3));
    assert_eq!(debugger.take_actions().len(), 1);
    assert_eq!(trace(&mut debugger).0.len(), 1);
}
