//! What holds over the life of an adapter, whatever it is called for and in whatever order.

use crate::clarity::{
    ContractContextView, EnvironmentView, LocalContextView, QualifiedContractIdentifierView,
    SymbolicExpression,
};
use crate::engine::{ActionView, State};
use crate::messages::{
    Category, MessageKindView, ProtocolMessageView, RequestCommandView, ResponseBodyView,
    StackTraceResponseView, ThreadsResponseView, VariablesArgumentsView, VariablesResponseView,
};
use crate::model::{CurrentView, DebuggerView, ReceivedView};
use crate::types::{SourceBreakpointView, SourceView, StackFrameView};
use vstd::prelude::*;

verus! {

/// A call that changes the adapter.
pub enum Call {
    /// The contract of a path was noted.
    MapPath { path: Seq<char>, contract: QualifiedContractIdentifierView },
    /// The path of the contract with this printed name was noted.
    MapContract { name: Seq<char>, path: Seq<char> },
    /// Something came in from the client.
    Take(ReceivedView),
    TakeBeforeLaunch(ReceivedView),
    TakeWhileHeld(ReceivedView),
    /// The engine has taken breakpoints.
    Report {
        seq: i64,
        source: SourceView,
        requested: Seq<SourceBreakpointView>,
        ids: Seq<usize>,
    },
    /// An expression is about to be evaluated.
    Record { env: EnvironmentView, chain: Seq<LocalContextView>, expr: SymbolicExpression },
    /// The engine holds execution.
    Hold { env: EnvironmentView, expr: SymbolicExpression, state: State },
    Resume,
    Print { category: Category, text: Seq<char> },
    /// The program has ended with a value.
    Complete { value: Seq<char>, events: Seq<Seq<char>> },
    /// The launch was picked up.
    PickUp,
    /// What is to be done was handed over.
    HandOver,
}

impl DebuggerView {
    /// The adapter after a call.
    pub open spec fn after(self, call: Call) -> Self {
        match call {
            Call::MapPath { path, contract } => DebuggerView {
                path_to_contract_id: self.path_to_contract_id.insert(path, contract),
                ..self
            },
            Call::MapContract { name, path } => DebuggerView {
                contract_id_to_path: self.contract_id_to_path.insert(name, path),
                ..self
            },
            Call::Take(received) => self.taking(received),
            Call::TakeBeforeLaunch(received) => self.taking_before_launch(received),
            Call::TakeWhileHeld(received) => self.taking_while_held(received),
            Call::Report { seq, source, requested, ids } => self.reporting_breakpoints(
                seq,
                source,
                requested,
                ids,
            ),
            Call::Record { env, chain, expr } => self.recording(env, chain, expr),
            Call::Hold { env, expr, state } => self.holding(env, expr, state),
            Call::Resume => self.resuming(),
            Call::Print { category, text } => self.printing(category, text),
            Call::Complete { value, events } => self.completing(value, events),
            Call::PickUp => self.picking_up(),
            Call::HandOver => self.handing_over(),
        }
    }

    /// The adapter after several calls, in order.
    pub open spec fn after_all(self, calls: Seq<Call>) -> Self
        decreases calls.len(),
    {
        if calls.len() == 0 {
            self
        } else {
            self.after_all(calls.drop_last()).after(calls.last())
        }
    }
}

/// Following an evaluation is a record, and a hold where the engine holds execution.
pub proof fn law_evaluation_is_a_record_and_a_hold(
    debugger: DebuggerView,
    env: EnvironmentView,
    chain: Seq<LocalContextView>,
    expr: SymbolicExpression,
    held: Option<State>,
)
    ensures
        debugger.evaluating(env, chain, expr, held) == match held {
            Some(state) => debugger.after(Call::Record { env, chain, expr }).after(
                Call::Hold { env, expr, state },
            ),
            None => debugger.after(Call::Record { env, chain, expr }),
        },
{
}

/// Telling of the end of the program only sends messages.
pub proof fn law_end_only_sends(
    debugger: DebuggerView,
    value: Seq<char>,
    events: Seq<Seq<char>>,
)
    ensures
        ({
            let after = debugger.completing(value, events);
            &&& after == DebuggerView {
                actions: after.actions,
                send_seq: after.send_seq,
                ..debugger
            }
            &&& debugger.actions.is_prefix_of(after.actions)
        }),
{
    let listed = debugger.printing(Category::Console, "Execution completed.\n"@).printing(
        Category::Console,
        "\nEvents emitted:\n"@,
    );
    let lines = events.map_values(|event: Seq<char>| event + "\n"@);
    crate::lemmas::lemma_printing_all_only_sends(listed, Category::Stdout, lines);
    let shown = listed.printing_all(Category::Stdout, lines);
    let after = debugger.completing(value, events);
    assert forall|i: int| 0 <= i < debugger.actions.len() implies debugger.actions[i]
        == #[trigger] after.actions[i] by {
        assert(debugger.actions[i] == listed.actions[i]);
        assert(listed.actions[i] == shown.actions[i]);
    }
    assert(debugger.actions =~= after.actions.subrange(0, debugger.actions.len() as int));
}

/// What is to be done stays to be done, first, until it is handed over.
pub proof fn law_calls_keep_what_is_to_be_done(debugger: DebuggerView, call: Call)
    requires
        !(call is HandOver),
    ensures
        debugger.actions.is_prefix_of(debugger.after(call).actions),
{
    match call {
        Call::Complete { value, events } => {
            law_end_only_sends(debugger, value, events);
        },
        Call::Take(ReceivedView::Message(message))
        | Call::TakeBeforeLaunch(ReceivedView::Message(message))
        | Call::TakeWhileHeld(ReceivedView::Message(message)) => {
            if let MessageKindView::Request(command) = message.message {
                crate::laws::law_requests_are_answered(debugger, message.seq as i64, command);
            }
        },
        _ => {},
    }
}

// The numbers of messages.

/// Every call keeps the numbers of the messages in order and loses none, but for the handover, which
/// hands all of them over.
pub proof fn law_calls_keep_numbers(debugger: DebuggerView, call: Call)
    requires
        !(call is HandOver),
    ensures
        crate::laws::keeps_numbers(debugger, debugger.after(call)),
{
    match call {
        Call::Take(ReceivedView::Message(message))
        | Call::TakeBeforeLaunch(ReceivedView::Message(message))
        | Call::TakeWhileHeld(ReceivedView::Message(message)) => {
            crate::laws::law_messages_keep_numbers(debugger, message);
        },
        Call::Report { seq, source, requested, ids } => {
            crate::laws::law_breakpoints_keep_numbers(debugger, seq, source, requested, ids);
        },
        Call::Hold { env, expr, state } => {
            crate::laws::law_hold_keeps_numbers(debugger, env, expr, state);
        },
        Call::Print { category, text } => {
            crate::laws::law_output_keeps_numbers(debugger, category, text);
        },
        Call::Complete { value, events } => {
            crate::laws::law_end_keeps_numbers(debugger, value, events);
        },
        _ => {},
    }
}

/// The messages that were handed over in the course of some calls, in order.
pub open spec fn sent(debugger: DebuggerView, calls: Seq<Call>) -> Seq<ProtocolMessageView>
    decreases calls.len(),
{
    if calls.len() == 0 {
        Seq::empty()
    } else {
        let before = sent(debugger, calls.drop_last());
        if calls.last() is HandOver {
            before + crate::laws::messages(debugger.after_all(calls.drop_last()).actions)
        } else {
            before
        }
    }
}

/// Over the life of an adapter, the messages are numbered from zero without a gap, answers and events
/// together: those that were handed over first, then those that are yet to be. The next number is
/// how many there are.
pub proof fn law_messages_count_from_zero(calls: Seq<Call>)
    ensures
        ({
            let debugger = DebuggerView::fresh().after_all(calls);
            let all = sent(DebuggerView::fresh(), calls) + crate::laws::messages(debugger.actions);
            &&& debugger.send_seq == all.len()
            &&& forall|k: int| 0 <= k < all.len() ==> (#[trigger] all[k]).seq == k
        }),
{
    lemma_messages_count_from_zero(calls);
}

proof fn lemma_messages_count_from_zero(calls: Seq<Call>)
    ensures
        ({
            let debugger = DebuggerView::fresh().after_all(calls);
            let handed = sent(DebuggerView::fresh(), calls);
            &&& crate::laws::numbered(debugger)
            &&& crate::laws::handed_over(debugger) == handed.len()
            &&& forall|k: int| 0 <= k < handed.len() ==> (#[trigger] handed[k]).seq == k
        }),
    decreases calls.len(),
{
    if calls.len() > 0 {
        let before = DebuggerView::fresh().after_all(calls.drop_last());
        lemma_messages_count_from_zero(calls.drop_last());
        if calls.last() is HandOver {
            crate::laws::law_handover_keeps_numbers(before);
        } else {
            law_calls_keep_numbers(before, calls.last());
        }
    }
}

// The launch.

/// Once the threads have been asked for, no call makes the adapter forget it; nor does any make it
/// forget that the engine has been started.
pub proof fn law_calls_keep_the_end_of_configuration(debugger: DebuggerView, call: Call)
    ensures
        debugger.init_complete ==> debugger.after(call).init_complete,
        debugger.started ==> debugger.after(call).started,
{
    if let Call::Complete { value, events } = call {
        law_end_only_sends(debugger, value, events);
    }
}

proof fn lemma_end_of_configuration_stays(debugger: DebuggerView, calls: Seq<Call>)
    ensures
        debugger.init_complete ==> debugger.after_all(calls).init_complete,
        debugger.started ==> debugger.after_all(calls).started,
    decreases calls.len(),
{
    if calls.len() > 0 {
        lemma_end_of_configuration_stays(debugger, calls.drop_last());
        law_calls_keep_the_end_of_configuration(
            debugger.after_all(calls.drop_last()),
            calls.last(),
        );
    }
}

/// After one request for the threads, whatever is called in between, another one is answered by one
/// message, which lists the one thread: the launch is answered, and the stop at the start told of, by
/// the first request alone.
pub proof fn law_threads_requests_answer_launch_once(
    debugger: DebuggerView,
    first: i64,
    calls: Seq<Call>,
    second: i64,
)
    ensures
        ({
            let before = debugger.handling(first, RequestCommandView::Threads).after_all(calls);
            let after = before.handling(second, RequestCommandView::Threads);
            &&& before.init_complete
            &&& after.init_complete
            &&& after == before.serving(
                second,
                ResponseBodyView::Threads(
                    ThreadsResponseView { threads: seq![crate::model::main_thread()] },
                ),
            )
        }),
{
    lemma_end_of_configuration_stays(
        debugger.handling(first, RequestCommandView::Threads),
        calls,
    );
}

// The place where execution is held.

/// Whether a call leaves the place where execution is held as it is.
pub open spec fn keeps_place(call: Call) -> bool {
    match call {
        Call::Hold { .. } | Call::Resume => false,
        Call::TakeWhileHeld(received) => !crate::model::ends_wait(received),
        _ => true,
    }
}

/// The place where execution is held changes by holds, and by what lets execution go on, alone.
pub proof fn law_calls_keep_the_place(debugger: DebuggerView, call: Call)
    requires
        keeps_place(call),
    ensures
        debugger.after(call).current == debugger.current,
{
    if let Call::Complete { value, events } = call {
        law_end_only_sends(debugger, value, events);
    }
}

proof fn lemma_place_stays(debugger: DebuggerView, calls: Seq<Call>)
    requires
        forall|i: int| 0 <= i < calls.len() ==> keeps_place(#[trigger] calls[i]),
    ensures
        debugger.after_all(calls).current == debugger.current,
    decreases calls.len(),
{
    if calls.len() > 0 {
        lemma_place_stays(debugger, calls.drop_last());
        law_calls_keep_the_place(debugger.after_all(calls.drop_last()), calls.last());
    }
}

/// From the moment that execution is held until the client lets it go on, whatever is called in
/// between, the adapter knows the place: a trace is one of the stack there, and a step over is one
/// over the expression there. What lets execution go on makes it forget the place.
pub proof fn law_place_is_known_while_held(
    debugger: DebuggerView,
    env: EnvironmentView,
    chain: Seq<LocalContextView>,
    expr: SymbolicExpression,
    state: State,
    calls: Seq<Call>,
    last: ReceivedView,
    seq: i64,
)
    requires
        debugger.started,
        forall|i: int| 0 <= i < calls.len() ==> keeps_place(#[trigger] calls[i]),
        crate::model::ends_wait(last),
    ensures
        ({
            let waiting = debugger.evaluating(env, chain, expr, Some(state)).after_all(calls);
            &&& waiting.current == Some(
                CurrentView {
                    source: debugger.source_of(env.contract_context.contract_identifier),
                    span: expr.span,
                    expr_id: expr.id,
                    stack: env.call_stack,
                },
            )
            &&& waiting.handling(seq, RequestCommandView::StackTrace) == waiting.serving(
                seq,
                ResponseBodyView::StackTrace(
                    StackTraceResponseView {
                        stack_frames: waiting.trace(env.call_stack),
                        total_frames: Some(env.call_stack.len() as i32),
                    },
                ),
            )
            &&& waiting.can_serve(RequestCommandView::Next)
            &&& waiting.handling(seq, RequestCommandView::Next) == waiting.doing(
                ActionView::StepOver(expr.id),
            ).serving(seq, ResponseBodyView::Next)
            &&& waiting.taking_while_held(last).current is None
        }),
{
    let held = debugger.evaluating(env, chain, expr, Some(state));
    lemma_place_stays(held, calls);
    lemma_end_of_configuration_stays(held, calls);
}

/// An evaluation begins and ends without a place: where none is known before, none is after one that
/// the engine does not hold, nor after one that it holds, once what comes in has let execution go on.
pub proof fn law_evaluation_leaves_no_place(
    debugger: DebuggerView,
    env: EnvironmentView,
    chain: Seq<LocalContextView>,
    expr: SymbolicExpression,
    held: Option<State>,
    calls: Seq<Call>,
    last: ReceivedView,
)
    requires
        debugger.current is None,
        crate::model::ends_wait(last),
    ensures
        ({
            let begun = debugger.evaluating(env, chain, expr, held);
            match held {
                Some(_) => begun.after_all(calls).taking_while_held(last).current is None,
                None => begun.current is None,
            }
        }),
{
}

// Scopes and variables.

/// The number of the frame whose scopes a call saves, if it saves any.
pub open spec fn saved_frame(debugger: DebuggerView, call: Call) -> Option<i32> {
    match call {
        Call::Record { env, chain, expr } => {
            let calls = crate::model::user_functions(env.call_stack);
            if calls.len() == 0 {
                None
            } else {
                Some(debugger.frame_at(env, calls.last().identifier, expr).id)
            }
        },
        _ => None,
    }
}

/// Whether a call saves no scopes of the frame with this number. Those that it saves can be numbered,
/// and are not more than a thousand.
pub open spec fn spares(debugger: DebuggerView, call: Call, frame_id: i32) -> bool {
    &&& saved_frame(debugger, call) != Some(frame_id)
    &&& call matches Call::Record { env, chain, expr } ==> debugger.can_record(env, chain, expr)
        && chain.len() < 1000
}

/// Whether each of some calls saves no scopes of the frame with this number.
pub open spec fn all_spare(debugger: DebuggerView, calls: Seq<Call>, frame_id: i32) -> bool
    decreases calls.len(),
{
    calls.len() > 0 ==> {
        &&& all_spare(debugger, calls.drop_last(), frame_id)
        &&& spares(debugger.after_all(calls.drop_last()), calls.last(), frame_id)
    }
}

/// A call that saves no scopes of a frame leaves those that are shown for it as they are, with what
/// they hold.
pub proof fn law_calls_keep_other_frames(
    debugger: DebuggerView,
    call: Call,
    frame: StackFrameView,
    chain: Seq<LocalContextView>,
    contract: ContractContextView,
)
    requires
        DebuggerView::can_number_scopes(frame, chain),
        chain.len() < 1000,
        crate::laws::shows(debugger, frame, chain, contract),
        spares(debugger, call, frame.id),
    ensures
        crate::laws::shows(debugger.after(call), frame, chain, contract),
{
    match call {
        Call::Record { env, chain: saved_chain, expr } => {
            let calls = crate::model::user_functions(env.call_stack);
            if calls.len() > 0 {
                let saved = debugger.frame_at(env, calls.last().identifier, expr);
                crate::laws::law_saving_keeps_other_frames(
                    debugger,
                    saved,
                    saved_chain,
                    env.contract_context,
                    frame,
                    chain,
                    contract,
                );
                lemma_shows_by_scopes(
                    debugger.saving_scopes(saved, saved_chain, env.contract_context),
                    debugger.after(call),
                    frame,
                    chain,
                    contract,
                );
            }
        },
        _ => {
            if let Call::Complete { value, events } = call {
                law_end_only_sends(debugger, value, events);
            }
            lemma_shows_by_scopes(debugger, debugger.after(call), frame, chain, contract);
        },
    }
}

/// What is shown depends on the scopes and the variables alone.
proof fn lemma_shows_by_scopes(
    before: DebuggerView,
    after: DebuggerView,
    frame: StackFrameView,
    chain: Seq<LocalContextView>,
    contract: ContractContextView,
)
    requires
        crate::laws::shows(before, frame, chain, contract),
        after.scopes == before.scopes,
        after.variables == before.variables,
    ensures
        crate::laws::shows(after, frame, chain, contract),
{
}

proof fn lemma_shown_scopes_stay(
    debugger: DebuggerView,
    calls: Seq<Call>,
    frame: StackFrameView,
    chain: Seq<LocalContextView>,
    contract: ContractContextView,
)
    requires
        DebuggerView::can_number_scopes(frame, chain),
        chain.len() < 1000,
        crate::laws::shows(debugger, frame, chain, contract),
        all_spare(debugger, calls, frame.id),
    ensures
        crate::laws::shows(debugger.after_all(calls), frame, chain, contract),
    decreases calls.len(),
{
    if calls.len() > 0 {
        lemma_shown_scopes_stay(debugger, calls.drop_last(), frame, chain, contract);
        law_calls_keep_other_frames(
            debugger.after_all(calls.drop_last()),
            calls.last(),
            frame,
            chain,
            contract,
        );
    }
}

/// Scopes that were saved for a frame are shown, with what they hold, until scopes are saved for that
/// frame again, whatever is called in between. Asking for the variables of any of them brings them,
/// in one message, and none of these variables has parts to be asked for.
pub proof fn law_saved_scopes_stay(
    debugger: DebuggerView,
    frame: StackFrameView,
    chain: Seq<LocalContextView>,
    contract: ContractContextView,
    calls: Seq<Call>,
    index: int,
    seq: i64,
)
    requires
        DebuggerView::can_number_scopes(frame, chain),
        chain.len() < 1000,
        all_spare(debugger.saving_scopes(frame, chain, contract), calls, frame.id),
        0 <= index <= chain.len(),
    ensures
        ({
            let after = debugger.saving_scopes(frame, chain, contract).after_all(calls);
            let variables = crate::model::scope_variables(chain, contract, index);
            let asked = after.handling(
                seq,
                RequestCommandView::Variables(
                    VariablesArgumentsView {
                        variables_reference: after.scopes[frame.id][index].variables_reference,
                    },
                ),
            );
            &&& crate::laws::shows(after, frame, chain, contract)
            &&& asked == after.serving(
                seq,
                ResponseBodyView::Variables(VariablesResponseView { variables }),
            )
            &&& asked.variables == after.variables
            &&& forall|i: int|
                0 <= i < variables.len() ==> (#[trigger] variables[i]).variables_reference == 0
        }),
{
    let saved = debugger.saving_scopes(frame, chain, contract);
    crate::laws::law_saving_shows(debugger, frame, chain, contract);
    lemma_shown_scopes_stay(saved, calls, frame, chain, contract);
    crate::laws::law_shown_variables_are_served(
        saved.after_all(calls),
        frame,
        chain,
        contract,
        index,
        seq,
    );
}

/// What following an evaluation saved is shown likewise, until scopes are saved for the frame of the
/// same call again.
pub proof fn law_recorded_scopes_stay(
    debugger: DebuggerView,
    env: EnvironmentView,
    chain: Seq<LocalContextView>,
    expr: SymbolicExpression,
    held: Option<State>,
    calls: Seq<Call>,
)
    requires
        debugger.can_record(env, chain, expr),
        crate::model::user_functions(env.call_stack).len() > 0,
        chain.len() < 1000,
        ({
            let function = crate::model::user_functions(env.call_stack).last().identifier;
            all_spare(
                debugger.evaluating(env, chain, expr, held),
                calls,
                debugger.frame_at(env, function, expr).id,
            )
        }),
    ensures
        ({
            let function = crate::model::user_functions(env.call_stack).last().identifier;
            crate::laws::shows(
                debugger.evaluating(env, chain, expr, held).after_all(calls),
                debugger.frame_at(env, function, expr),
                chain,
                env.contract_context,
            )
        }),
{
    let function = crate::model::user_functions(env.call_stack).last().identifier;
    let frame = debugger.frame_at(env, function, expr);
    let evaluated = debugger.evaluating(env, chain, expr, held);
    crate::laws::law_saving_shows(debugger, frame, chain, env.contract_context);
    lemma_shows_by_scopes(
        debugger.saving_scopes(frame, chain, env.contract_context),
        evaluated,
        frame,
        chain,
        env.contract_context,
    );
    lemma_shown_scopes_stay(evaluated, calls, frame, chain, env.contract_context);
}

// Frames, scopes and variables together.

/// Whether the calls that save scopes can number them.
pub open spec fn all_recordable(debugger: DebuggerView, calls: Seq<Call>) -> bool
    decreases calls.len(),
{
    calls.len() > 0 ==> {
        &&& all_recordable(debugger, calls.drop_last())
        &&& calls.last() matches Call::Record { env, chain, expr } ==> debugger.after_all(
            calls.drop_last(),
        ).can_record(env, chain, expr)
    }
}

/// Over the life of an adapter, every frame has scopes and every scope has variables behind its
/// reference.
pub proof fn law_adapter_stays_coherent(calls: Seq<Call>)
    requires
        all_recordable(DebuggerView::fresh(), calls),
    ensures
        crate::laws::coherent(DebuggerView::fresh().after_all(calls)),
    decreases calls.len(),
{
    if calls.len() == 0 {
        crate::laws::law_fresh_adapter_is_coherent(DebuggerView::fresh());
    } else {
        let before = DebuggerView::fresh().after_all(calls.drop_last());
        law_adapter_stays_coherent(calls.drop_last());
        match calls.last() {
            Call::Record { env, chain, expr } => {
                crate::laws::law_evaluation_keeps_coherence(before, env, chain, expr, None);
            },
            Call::Complete { value, events } => {
                law_end_only_sends(before, value, events);
            },
            Call::Take(ReceivedView::Message(message))
            | Call::TakeBeforeLaunch(ReceivedView::Message(message))
            | Call::TakeWhileHeld(ReceivedView::Message(message)) => {
                crate::laws::law_messages_keep_coherence(before, message);
            },
            _ => {},
        }
    }
}

} // verus!
