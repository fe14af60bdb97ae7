//! What the adapter and its surroundings tell each other: the states of the engine that runs the
//! program, and the actions that the adapter wants done.

use crate::clarity::{QualifiedContractIdentifier, QualifiedContractIdentifierView, Span};
use crate::messages::{
    ProtocolMessage, ProtocolMessageView, SetBreakpointsArguments, SetBreakpointsArgumentsView,
};
use vstd::prelude::*;

verus! {

/// The state in which the engine holds execution.
#[derive(Clone, Copy, Debug, PartialEq, Eq, Structural)]
pub enum State {
    /// Nothing has been evaluated yet.
    Start,
    /// A breakpoint was hit.
    Break(usize),
    /// A data breakpoint was hit.
    DataBreak(usize),
    /// A function that was to be finished has returned.
    Finished,
    /// A step into an expression is over.
    StepIn,
    /// A step over the expression with this number is over.
    StepOver(u64),
    /// The user asked for a pause.
    Pause,
}

/// What a breakpoint of the engine breaks at.
#[derive(Clone, Copy, Debug, PartialEq, Eq, Structural)]
pub enum BreakpointData {
    Source { line: u32, column: Option<u32> },
}

/// A breakpoint as the engine takes it. The engine gives it a number of its own.
#[derive(Debug, PartialEq, Eq)]
pub struct EngineBreakpoint {
    pub id: usize,
    pub verified: bool,
    pub data: BreakpointData,
    pub source: QualifiedContractIdentifier,
    pub span: Option<Span>,
}

/// The value that a [`EngineBreakpoint`] stands for.
pub struct EngineBreakpointView {
    pub id: usize,
    pub verified: bool,
    pub data: BreakpointData,
    pub source: QualifiedContractIdentifierView,
    pub span: Option<Span>,
}

impl View for EngineBreakpoint {
    type V = EngineBreakpointView;

    open spec fn view(&self) -> EngineBreakpointView {
        EngineBreakpointView {
            id: self.id,
            verified: self.verified,
            data: self.data,
            source: self.source@,
            span: self.span,
        }
    }
}

impl DeepView for EngineBreakpoint {
    type V = EngineBreakpointView;

    open spec fn deep_view(&self) -> EngineBreakpointView {
        self@
    }
}

/// Breakpoints for the engine to take, with the request that asks for them.
#[derive(Debug, PartialEq, Eq)]
pub struct BreakpointOrder {
    pub seq: i64,
    pub arguments: SetBreakpointsArguments,
    pub breakpoints: Vec<EngineBreakpoint>,
}

/// The value that a [`BreakpointOrder`] stands for.
pub struct BreakpointOrderView {
    pub seq: i64,
    pub arguments: SetBreakpointsArgumentsView,
    pub breakpoints: Seq<EngineBreakpointView>,
}

impl View for BreakpointOrder {
    type V = BreakpointOrderView;

    open spec fn view(&self) -> BreakpointOrderView {
        BreakpointOrderView {
            seq: self.seq,
            arguments: self.arguments@,
            breakpoints: self.breakpoints.deep_view(),
        }
    }
}

impl DeepView for BreakpointOrder {
    type V = BreakpointOrderView;

    open spec fn deep_view(&self) -> BreakpointOrderView {
        self@
    }
}

/// Something that the adapter wants done.
#[derive(Debug, PartialEq, Eq)]
pub enum Action {
    /// Send this message to the client.
    Send(ProtocolMessage),
    /// Start the engine on this expression, in the transient contract.
    Start(String),
    /// Have the engine take these breakpoints, then report the numbers that it gave them.
    AddBreakpoints(BreakpointOrder),
    /// Step into the next expression.
    StepIn,
    /// Run until the current function returns.
    Finish,
    /// Run until the expression with this number has been evaluated.
    StepOver(u64),
    /// Run on.
    ContinueExecution,
    /// Stop at the next expression.
    Pause,
    /// End the session.
    Quit,
}

/// The value that a [`Action`] stands for.
pub enum ActionView {
    Send(ProtocolMessageView),
    Start(Seq<char>),
    AddBreakpoints(BreakpointOrderView),
    StepIn,
    Finish,
    StepOver(u64),
    ContinueExecution,
    Pause,
    Quit,
}

impl View for Action {
    type V = ActionView;

    open spec fn view(&self) -> ActionView {
        match self {
            Action::Send(inner) => ActionView::Send(inner@),
            Action::Start(inner) => ActionView::Start(inner@),
            Action::AddBreakpoints(inner) => ActionView::AddBreakpoints(inner@),
            Action::StepIn => ActionView::StepIn,
            Action::Finish => ActionView::Finish,
            Action::StepOver(inner) => ActionView::StepOver(*inner),
            Action::ContinueExecution => ActionView::ContinueExecution,
            Action::Pause => ActionView::Pause,
            Action::Quit => ActionView::Quit,
        }
    }
}

impl DeepView for Action {
    type V = ActionView;

    open spec fn deep_view(&self) -> ActionView {
        self@
    }
}

} // verus!
