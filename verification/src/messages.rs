//! The messages of the Debug Adapter Protocol that the adapter reads and writes.

use crate::types::{
    Breakpoint, BreakpointView, Capabilities, CapabilitiesView, Scope, ScopeView, Source,
    SourceBreakpoint, SourceBreakpointView, SourceView, StackFrame, StackFrameView, Thread,
    ThreadView, Variable, VariableView,
};
use vstd::prelude::*;

verus! {

/// The arguments of a launch request.
#[derive(Debug, PartialEq, Eq)]
pub struct LaunchRequestArguments {
    pub manifest: Option<String>,
    pub expression: Option<String>,
}

/// The value that a [`LaunchRequestArguments`] stands for.
pub struct LaunchRequestArgumentsView {
    pub manifest: Option<Seq<char>>,
    pub expression: Option<Seq<char>>,
}

impl View for LaunchRequestArguments {
    type V = LaunchRequestArgumentsView;

    open spec fn view(&self) -> LaunchRequestArgumentsView {
        LaunchRequestArgumentsView {
            manifest: self.manifest.deep_view(),
            expression: self.expression.deep_view(),
        }
    }
}

impl DeepView for LaunchRequestArguments {
    type V = LaunchRequestArgumentsView;

    open spec fn deep_view(&self) -> LaunchRequestArgumentsView {
        self@
    }
}

/// The arguments of a request for breakpoints in one source.
#[derive(Debug, PartialEq, Eq)]
pub struct SetBreakpointsArguments {
    pub source: Source,
    pub breakpoints: Option<Vec<SourceBreakpoint>>,
}

/// The value that a [`SetBreakpointsArguments`] stands for.
pub struct SetBreakpointsArgumentsView {
    pub source: SourceView,
    pub breakpoints: Option<Seq<SourceBreakpointView>>,
}

impl View for SetBreakpointsArguments {
    type V = SetBreakpointsArgumentsView;

    open spec fn view(&self) -> SetBreakpointsArgumentsView {
        SetBreakpointsArgumentsView {
            source: self.source@,
            breakpoints: self.breakpoints.deep_view(),
        }
    }
}

impl DeepView for SetBreakpointsArguments {
    type V = SetBreakpointsArgumentsView;

    open spec fn deep_view(&self) -> SetBreakpointsArgumentsView {
        self@
    }
}

/// The arguments of a request for the scopes of a frame.
#[derive(Debug, PartialEq, Eq)]
pub struct ScopesArguments {
    pub frame_id: i32,
}

/// The value that a [`ScopesArguments`] stands for.
pub struct ScopesArgumentsView {
    pub frame_id: i32,
}

impl View for ScopesArguments {
    type V = ScopesArgumentsView;

    open spec fn view(&self) -> ScopesArgumentsView {
        ScopesArgumentsView {
            frame_id: self.frame_id,
        }
    }
}

impl DeepView for ScopesArguments {
    type V = ScopesArgumentsView;

    open spec fn deep_view(&self) -> ScopesArgumentsView {
        self@
    }
}

/// The arguments of a request for the variables behind a reference.
#[derive(Debug, PartialEq, Eq)]
pub struct VariablesArguments {
    pub variables_reference: i32,
}

/// The value that a [`VariablesArguments`] stands for.
pub struct VariablesArgumentsView {
    pub variables_reference: i32,
}

impl View for VariablesArguments {
    type V = VariablesArgumentsView;

    open spec fn view(&self) -> VariablesArgumentsView {
        VariablesArgumentsView {
            variables_reference: self.variables_reference,
        }
    }
}

impl DeepView for VariablesArguments {
    type V = VariablesArgumentsView;

    open spec fn deep_view(&self) -> VariablesArgumentsView {
        self@
    }
}

/// A request of the client, with those of its arguments that the adapter looks at.
#[derive(Debug, PartialEq, Eq)]
pub enum RequestCommand {
    Initialize,
    ConfigurationDone,
    Launch(LaunchRequestArguments),
    SetBreakpoints(SetBreakpointsArguments),
    SetExceptionBreakpoints,
    Disconnect,
    Threads,
    StackTrace,
    Scopes(ScopesArguments),
    Variables(VariablesArguments),
    StepIn,
    StepOut,
    Next,
    Continue,
    Pause,
    /// Any request that the adapter does not serve.
    Unsupported,
}

/// The value that a [`RequestCommand`] stands for.
pub enum RequestCommandView {
    Initialize,
    ConfigurationDone,
    Launch(LaunchRequestArgumentsView),
    SetBreakpoints(SetBreakpointsArgumentsView),
    SetExceptionBreakpoints,
    Disconnect,
    Threads,
    StackTrace,
    Scopes(ScopesArgumentsView),
    Variables(VariablesArgumentsView),
    StepIn,
    StepOut,
    Next,
    Continue,
    Pause,
    Unsupported,
}

impl View for RequestCommand {
    type V = RequestCommandView;

    open spec fn view(&self) -> RequestCommandView {
        match self {
            RequestCommand::Initialize => RequestCommandView::Initialize,
            RequestCommand::ConfigurationDone => RequestCommandView::ConfigurationDone,
            RequestCommand::Launch(inner) => RequestCommandView::Launch(inner@),
            RequestCommand::SetBreakpoints(inner) => RequestCommandView::SetBreakpoints(inner@),
            RequestCommand::SetExceptionBreakpoints => RequestCommandView::SetExceptionBreakpoints,
            RequestCommand::Disconnect => RequestCommandView::Disconnect,
            RequestCommand::Threads => RequestCommandView::Threads,
            RequestCommand::StackTrace => RequestCommandView::StackTrace,
            RequestCommand::Scopes(inner) => RequestCommandView::Scopes(inner@),
            RequestCommand::Variables(inner) => RequestCommandView::Variables(inner@),
            RequestCommand::StepIn => RequestCommandView::StepIn,
            RequestCommand::StepOut => RequestCommandView::StepOut,
            RequestCommand::Next => RequestCommandView::Next,
            RequestCommand::Continue => RequestCommandView::Continue,
            RequestCommand::Pause => RequestCommandView::Pause,
            RequestCommand::Unsupported => RequestCommandView::Unsupported,
        }
    }
}

impl DeepView for RequestCommand {
    type V = RequestCommandView;

    open spec fn deep_view(&self) -> RequestCommandView {
        self@
    }
}

/// The answer to an initialize request.
#[derive(Debug, PartialEq, Eq)]
pub struct InitializeResponse {
    pub capabilities: Capabilities,
}

/// The value that a [`InitializeResponse`] stands for.
pub struct InitializeResponseView {
    pub capabilities: CapabilitiesView,
}

impl View for InitializeResponse {
    type V = InitializeResponseView;

    open spec fn view(&self) -> InitializeResponseView {
        InitializeResponseView {
            capabilities: self.capabilities@,
        }
    }
}

impl DeepView for InitializeResponse {
    type V = InitializeResponseView;

    open spec fn deep_view(&self) -> InitializeResponseView {
        self@
    }
}

/// The answer to a request for breakpoints in one source.
#[derive(Debug, PartialEq, Eq)]
pub struct SetBreakpointsResponse {
    pub breakpoints: Vec<Breakpoint>,
}

/// The value that a [`SetBreakpointsResponse`] stands for.
pub struct SetBreakpointsResponseView {
    pub breakpoints: Seq<BreakpointView>,
}

impl View for SetBreakpointsResponse {
    type V = SetBreakpointsResponseView;

    open spec fn view(&self) -> SetBreakpointsResponseView {
        SetBreakpointsResponseView {
            breakpoints: self.breakpoints.deep_view(),
        }
    }
}

impl DeepView for SetBreakpointsResponse {
    type V = SetBreakpointsResponseView;

    open spec fn deep_view(&self) -> SetBreakpointsResponseView {
        self@
    }
}

/// The answer to a request for exception breakpoints.
#[derive(Debug, PartialEq, Eq)]
pub struct SetExceptionBreakpointsResponse {
    pub breakpoints: Option<Vec<Breakpoint>>,
}

/// The value that a [`SetExceptionBreakpointsResponse`] stands for.
pub struct SetExceptionBreakpointsResponseView {
    pub breakpoints: Option<Seq<BreakpointView>>,
}

impl View for SetExceptionBreakpointsResponse {
    type V = SetExceptionBreakpointsResponseView;

    open spec fn view(&self) -> SetExceptionBreakpointsResponseView {
        SetExceptionBreakpointsResponseView {
            breakpoints: self.breakpoints.deep_view(),
        }
    }
}

impl DeepView for SetExceptionBreakpointsResponse {
    type V = SetExceptionBreakpointsResponseView;

    open spec fn deep_view(&self) -> SetExceptionBreakpointsResponseView {
        self@
    }
}

/// The answer to a continue request.
#[derive(Debug, PartialEq, Eq)]
pub struct ContinueResponse {
    pub all_threads_continued: Option<bool>,
}

/// The value that a [`ContinueResponse`] stands for.
pub struct ContinueResponseView {
    pub all_threads_continued: Option<bool>,
}

impl View for ContinueResponse {
    type V = ContinueResponseView;

    open spec fn view(&self) -> ContinueResponseView {
        ContinueResponseView {
            all_threads_continued: self.all_threads_continued,
        }
    }
}

impl DeepView for ContinueResponse {
    type V = ContinueResponseView;

    open spec fn deep_view(&self) -> ContinueResponseView {
        self@
    }
}

/// The answer to a stack trace request.
#[derive(Debug, PartialEq, Eq)]
pub struct StackTraceResponse {
    pub stack_frames: Vec<StackFrame>,
    pub total_frames: Option<i32>,
}

/// The value that a [`StackTraceResponse`] stands for.
pub struct StackTraceResponseView {
    pub stack_frames: Seq<StackFrameView>,
    pub total_frames: Option<i32>,
}

impl View for StackTraceResponse {
    type V = StackTraceResponseView;

    open spec fn view(&self) -> StackTraceResponseView {
        StackTraceResponseView {
            stack_frames: self.stack_frames.deep_view(),
            total_frames: self.total_frames,
        }
    }
}

impl DeepView for StackTraceResponse {
    type V = StackTraceResponseView;

    open spec fn deep_view(&self) -> StackTraceResponseView {
        self@
    }
}

/// The answer to a scopes request.
#[derive(Debug, PartialEq, Eq)]
pub struct ScopesResponse {
    pub scopes: Vec<Scope>,
}

/// The value that a [`ScopesResponse`] stands for.
pub struct ScopesResponseView {
    pub scopes: Seq<ScopeView>,
}

impl View for ScopesResponse {
    type V = ScopesResponseView;

    open spec fn view(&self) -> ScopesResponseView {
        ScopesResponseView {
            scopes: self.scopes.deep_view(),
        }
    }
}

impl DeepView for ScopesResponse {
    type V = ScopesResponseView;

    open spec fn deep_view(&self) -> ScopesResponseView {
        self@
    }
}

/// The answer to a variables request.
#[derive(Debug, PartialEq, Eq)]
pub struct VariablesResponse {
    pub variables: Vec<Variable>,
}

/// The value that a [`VariablesResponse`] stands for.
pub struct VariablesResponseView {
    pub variables: Seq<VariableView>,
}

impl View for VariablesResponse {
    type V = VariablesResponseView;

    open spec fn view(&self) -> VariablesResponseView {
        VariablesResponseView {
            variables: self.variables.deep_view(),
        }
    }
}

impl DeepView for VariablesResponse {
    type V = VariablesResponseView;

    open spec fn deep_view(&self) -> VariablesResponseView {
        self@
    }
}

/// The answer to a threads request.
#[derive(Debug, PartialEq, Eq)]
pub struct ThreadsResponse {
    pub threads: Vec<Thread>,
}

/// The value that a [`ThreadsResponse`] stands for.
pub struct ThreadsResponseView {
    pub threads: Seq<ThreadView>,
}

impl View for ThreadsResponse {
    type V = ThreadsResponseView;

    open spec fn view(&self) -> ThreadsResponseView {
        ThreadsResponseView {
            threads: self.threads.deep_view(),
        }
    }
}

impl DeepView for ThreadsResponse {
    type V = ThreadsResponseView;

    open spec fn deep_view(&self) -> ThreadsResponseView {
        self@
    }
}

/// What a response carries.
#[derive(Debug, PartialEq, Eq)]
pub enum ResponseBody {
    Initialize(InitializeResponse),
    ConfigurationDone,
    Launch,
    Disconnect,
    SetBreakpoints(SetBreakpointsResponse),
    SetExceptionBreakpoints(SetExceptionBreakpointsResponse),
    Continue(ContinueResponse),
    Next,
    StepIn,
    StepOut,
    Pause,
    StackTrace(StackTraceResponse),
    Scopes(ScopesResponse),
    Variables(VariablesResponse),
    Threads(ThreadsResponse),
    /// Any other content; the adapter receives it but never sends it.
    Other,
}

/// The value that a [`ResponseBody`] stands for.
pub enum ResponseBodyView {
    Initialize(InitializeResponseView),
    ConfigurationDone,
    Launch,
    Disconnect,
    SetBreakpoints(SetBreakpointsResponseView),
    SetExceptionBreakpoints(SetExceptionBreakpointsResponseView),
    Continue(ContinueResponseView),
    Next,
    StepIn,
    StepOut,
    Pause,
    StackTrace(StackTraceResponseView),
    Scopes(ScopesResponseView),
    Variables(VariablesResponseView),
    Threads(ThreadsResponseView),
    Other,
}

impl View for ResponseBody {
    type V = ResponseBodyView;

    open spec fn view(&self) -> ResponseBodyView {
        match self {
            ResponseBody::Initialize(inner) => ResponseBodyView::Initialize(inner@),
            ResponseBody::ConfigurationDone => ResponseBodyView::ConfigurationDone,
            ResponseBody::Launch => ResponseBodyView::Launch,
            ResponseBody::Disconnect => ResponseBodyView::Disconnect,
            ResponseBody::SetBreakpoints(inner) => ResponseBodyView::SetBreakpoints(inner@),
            ResponseBody::SetExceptionBreakpoints(inner) => ResponseBodyView::SetExceptionBreakpoints(inner@),
            ResponseBody::Continue(inner) => ResponseBodyView::Continue(inner@),
            ResponseBody::Next => ResponseBodyView::Next,
            ResponseBody::StepIn => ResponseBodyView::StepIn,
            ResponseBody::StepOut => ResponseBodyView::StepOut,
            ResponseBody::Pause => ResponseBodyView::Pause,
            ResponseBody::StackTrace(inner) => ResponseBodyView::StackTrace(inner@),
            ResponseBody::Scopes(inner) => ResponseBodyView::Scopes(inner@),
            ResponseBody::Variables(inner) => ResponseBodyView::Variables(inner@),
            ResponseBody::Threads(inner) => ResponseBodyView::Threads(inner@),
            ResponseBody::Other => ResponseBodyView::Other,
        }
    }
}

impl DeepView for ResponseBody {
    type V = ResponseBodyView;

    open spec fn deep_view(&self) -> ResponseBodyView {
        self@
    }
}

/// An answer to the request with the number `request_seq`.
#[derive(Debug, PartialEq, Eq)]
pub struct Response {
    pub request_seq: i64,
    pub success: bool,
    pub message: Option<String>,
    pub body: Option<ResponseBody>,
}

/// The value that a [`Response`] stands for.
pub struct ResponseView {
    pub request_seq: i64,
    pub success: bool,
    pub message: Option<Seq<char>>,
    pub body: Option<ResponseBodyView>,
}

impl View for Response {
    type V = ResponseView;

    open spec fn view(&self) -> ResponseView {
        ResponseView {
            request_seq: self.request_seq,
            success: self.success,
            message: self.message.deep_view(),
            body: self.body.deep_view(),
        }
    }
}

impl DeepView for Response {
    type V = ResponseView;

    open spec fn deep_view(&self) -> ResponseView {
        self@
    }
}

/// Why execution stopped.
#[derive(Clone, Copy, Debug, PartialEq, Eq, Structural)]
pub enum StoppedReason {
    Step,
    Breakpoint,
    Exception,
    Pause,
    Entry,
    Goto,
    FunctionBreakpoint,
    DataBreakpoint,
    InstructionBreakpoint,
}

/// The channel that an output belongs to.
#[derive(Clone, Copy, Debug, PartialEq, Eq, Structural)]
pub enum Category {
    Console,
    Important,
    Stdout,
    Stderr,
    Telemetry,
}

/// How an output is grouped.
#[derive(Clone, Copy, Debug, PartialEq, Eq, Structural)]
pub enum Group {
    Start,
    StartCollapsed,
    End,
}

/// Execution has stopped.
#[derive(Debug, PartialEq, Eq)]
pub struct StoppedEvent {
    pub reason: StoppedReason,
    pub description: Option<String>,
    pub thread_id: Option<i32>,
    pub preserve_focus_hint: Option<bool>,
    pub text: Option<String>,
    pub all_threads_stopped: Option<bool>,
    pub hit_breakpoint_ids: Option<Vec<usize>>,
}

/// The value that a [`StoppedEvent`] stands for.
pub struct StoppedEventView {
    pub reason: StoppedReason,
    pub description: Option<Seq<char>>,
    pub thread_id: Option<i32>,
    pub preserve_focus_hint: Option<bool>,
    pub text: Option<Seq<char>>,
    pub all_threads_stopped: Option<bool>,
    pub hit_breakpoint_ids: Option<Seq<usize>>,
}

impl View for StoppedEvent {
    type V = StoppedEventView;

    open spec fn view(&self) -> StoppedEventView {
        StoppedEventView {
            reason: self.reason,
            description: self.description.deep_view(),
            thread_id: self.thread_id,
            preserve_focus_hint: self.preserve_focus_hint,
            text: self.text.deep_view(),
            all_threads_stopped: self.all_threads_stopped,
            hit_breakpoint_ids: self.hit_breakpoint_ids.deep_view(),
        }
    }
}

impl DeepView for StoppedEvent {
    type V = StoppedEventView;

    open spec fn deep_view(&self) -> StoppedEventView {
        self@
    }
}

/// Text for the user.
#[derive(Debug, PartialEq, Eq)]
pub struct OutputEvent {
    pub category: Option<Category>,
    pub output: String,
    pub group: Option<Group>,
    pub variables_reference: Option<i32>,
    pub source: Option<Source>,
    pub line: Option<i32>,
    pub column: Option<i32>,
    pub data: Option<String>,
}

/// The value that a [`OutputEvent`] stands for.
pub struct OutputEventView {
    pub category: Option<Category>,
    pub output: Seq<char>,
    pub group: Option<Group>,
    pub variables_reference: Option<i32>,
    pub source: Option<SourceView>,
    pub line: Option<i32>,
    pub column: Option<i32>,
    pub data: Option<Seq<char>>,
}

impl View for OutputEvent {
    type V = OutputEventView;

    open spec fn view(&self) -> OutputEventView {
        OutputEventView {
            category: self.category,
            output: self.output@,
            group: self.group,
            variables_reference: self.variables_reference,
            source: self.source.deep_view(),
            line: self.line,
            column: self.column,
            data: self.data.deep_view(),
        }
    }
}

impl DeepView for OutputEvent {
    type V = OutputEventView;

    open spec fn deep_view(&self) -> OutputEventView {
        self@
    }
}

/// What an event carries.
#[derive(Debug, PartialEq, Eq)]
pub enum EventBody {
    Initialized,
    Stopped(StoppedEvent),
    Output(OutputEvent),
    /// Any other content; the adapter receives it but never sends it.
    Other,
}

/// The value that a [`EventBody`] stands for.
pub enum EventBodyView {
    Initialized,
    Stopped(StoppedEventView),
    Output(OutputEventView),
    Other,
}

impl View for EventBody {
    type V = EventBodyView;

    open spec fn view(&self) -> EventBodyView {
        match self {
            EventBody::Initialized => EventBodyView::Initialized,
            EventBody::Stopped(inner) => EventBodyView::Stopped(inner@),
            EventBody::Output(inner) => EventBodyView::Output(inner@),
            EventBody::Other => EventBodyView::Other,
        }
    }
}

impl DeepView for EventBody {
    type V = EventBodyView;

    open spec fn deep_view(&self) -> EventBodyView {
        self@
    }
}

/// Something that happened without being asked for.
#[derive(Debug, PartialEq, Eq)]
pub struct Event {
    pub body: Option<EventBody>,
}

/// The value that a [`Event`] stands for.
pub struct EventView {
    pub body: Option<EventBodyView>,
}

impl View for Event {
    type V = EventView;

    open spec fn view(&self) -> EventView {
        EventView {
            body: self.body.deep_view(),
        }
    }
}

impl DeepView for Event {
    type V = EventView;

    open spec fn deep_view(&self) -> EventView {
        self@
    }
}

/// The three kinds of messages.
#[derive(Debug, PartialEq, Eq)]
pub enum MessageKind {
    Request(RequestCommand),
    Response(Response),
    Event(Event),
}

/// The value that a [`MessageKind`] stands for.
pub enum MessageKindView {
    Request(RequestCommandView),
    Response(ResponseView),
    Event(EventView),
}

impl View for MessageKind {
    type V = MessageKindView;

    open spec fn view(&self) -> MessageKindView {
        match self {
            MessageKind::Request(inner) => MessageKindView::Request(inner@),
            MessageKind::Response(inner) => MessageKindView::Response(inner@),
            MessageKind::Event(inner) => MessageKindView::Event(inner@),
        }
    }
}

impl DeepView for MessageKind {
    type V = MessageKindView;

    open spec fn deep_view(&self) -> MessageKindView {
        self@
    }
}

/// A message with its sequence number.
#[derive(Debug, PartialEq, Eq)]
pub struct ProtocolMessage {
    pub seq: i64,
    pub message: MessageKind,
}

/// The value that a [`ProtocolMessage`] stands for.
pub struct ProtocolMessageView {
    pub seq: int,
    pub message: MessageKindView,
}

impl View for ProtocolMessage {
    type V = ProtocolMessageView;

    open spec fn view(&self) -> ProtocolMessageView {
        ProtocolMessageView {
            seq: self.seq as int,
            message: self.message@,
        }
    }
}

impl DeepView for ProtocolMessage {
    type V = ProtocolMessageView;

    open spec fn deep_view(&self) -> ProtocolMessageView {
        self@
    }
}

} // verus!
