//! The types that requests, responses and events of the Debug Adapter Protocol share.

use vstd::prelude::*;

verus! {

/// A copy of an optional text.
pub(crate) fn clone_text(text: &Option<String>) -> (copy: Option<String>)
    ensures
        copy.deep_view() == text.deep_view(),
{
    match text {
        Some(text) => Some(text.clone()),
        None => None,
    }
}

/// How a client should present a source, a frame or a scope.
#[derive(Clone, Copy, Debug, PartialEq, Eq, Structural)]
pub enum PresentationHint {
    Normal,
    Emphasize,
    Deemphasize,
    Label,
    Subtle,
    Arguments,
    Locals,
    Registers,
}

/// The algorithm behind a checksum.
#[derive(Clone, Copy, Debug, PartialEq, Eq, Structural)]
pub enum ChecksumAlgorithm {
    MD5,
    SHA1,
    SHA256,
    Timestamp,
}

impl DeepView for ChecksumAlgorithm {
    type V = ChecksumAlgorithm;

    open spec fn deep_view(&self) -> ChecksumAlgorithm {
        *self
    }
}

/// The type of the values in a column of the modules view.
#[derive(Clone, Copy, Debug, PartialEq, Eq, Structural)]
pub enum ColumnType {
    String,
    Number,
    Boolean,
    UnixTimestampUTC,
}

/// The kind of a variable.
#[derive(Clone, Copy, Debug, PartialEq, Eq, Structural)]
pub enum VariableKind {
    Property,
    Method,
    Class,
    Data,
    Event,
    BaseClass,
    InnerClass,
    Interface,
    MostDerivedClass,
    Virtual,
    DataBreakpoint,
}

/// An attribute of a variable.
#[derive(Clone, Copy, Debug, PartialEq, Eq, Structural)]
pub enum VariableAttribute {
    Static,
    Constant,
    ReadOnly,
    RawString,
    HasObjectId,
    CanHaveObjectId,
    HasSideEffects,
    HasDataBreakpoint,
}

impl DeepView for VariableAttribute {
    type V = VariableAttribute;

    open spec fn deep_view(&self) -> VariableAttribute {
        *self
    }
}

/// The visibility of a variable.
#[derive(Clone, Copy, Debug, PartialEq, Eq, Structural)]
pub enum Visibility {
    Public,
    Private,
    Protected,
    Internal,
    Final,
}

/// The checksum of an item.
#[derive(Debug, PartialEq, Eq)]
pub struct Checksum {
    pub algorithm: ChecksumAlgorithm,
    pub checksum: String,
}

/// The value that a [`Checksum`] stands for.
pub struct ChecksumView {
    pub algorithm: ChecksumAlgorithm,
    pub checksum: Seq<char>,
}

impl View for Checksum {
    type V = ChecksumView;

    open spec fn view(&self) -> ChecksumView {
        ChecksumView {
            algorithm: self.algorithm,
            checksum: self.checksum@,
        }
    }
}

impl DeepView for Checksum {
    type V = ChecksumView;

    open spec fn deep_view(&self) -> ChecksumView {
        self@
    }
}

impl Clone for Checksum {
    fn clone(&self) -> (copy: Self)
        ensures
            copy@ == self@,
    {
        Checksum {
            algorithm: self.algorithm,
            checksum: self.checksum.clone(),
        }
    }
}

/// A descriptor of source code.
#[derive(Debug, PartialEq, Eq)]
pub struct Source {
    pub name: Option<String>,
    pub path: Option<String>,
    pub source_reference: Option<i32>,
    pub presentation_hint: Option<PresentationHint>,
    pub origin: Option<String>,
    pub sources: Option<Vec<Source>>,
    pub adapter_data: Option<String>,
    pub checksums: Option<Vec<Checksum>>,
}

/// The value that a [`Source`] stands for.
pub struct SourceView {
    pub name: Option<Seq<char>>,
    pub path: Option<Seq<char>>,
    pub source_reference: Option<i32>,
    pub presentation_hint: Option<PresentationHint>,
    pub origin: Option<Seq<char>>,
    pub sources: Option<Seq<SourceView>>,
    pub adapter_data: Option<Seq<char>>,
    pub checksums: Option<Seq<ChecksumView>>,
}

/// The value that a source stands for, its related sources included.
pub open spec fn source_view(source: Source) -> SourceView
    decreases source,
{
    SourceView {
        name: source.name.deep_view(),
        path: source.path.deep_view(),
        source_reference: source.source_reference,
        presentation_hint: source.presentation_hint,
        origin: source.origin.deep_view(),
        sources: match source.sources {
            Some(related) => Some(sources_view(related@)),
            None => None,
        },
        adapter_data: source.adapter_data.deep_view(),
        checksums: source.checksums.deep_view(),
    }
}

/// The values that the sources of a list stand for.
pub open spec fn sources_view(sources: Seq<Source>) -> Seq<SourceView>
    decreases sources,
{
    Seq::new(
        sources.len(),
        |i: int|
            if 0 <= i < sources.len() {
                source_view(sources[i])
            } else {
                arbitrary()
            },
    )
}

impl View for Source {
    type V = SourceView;

    open spec fn view(&self) -> SourceView {
        source_view(*self)
    }
}

impl DeepView for Source {
    type V = SourceView;

    open spec fn deep_view(&self) -> SourceView {
        self@
    }
}

impl Clone for Source {
    fn clone(&self) -> (copy: Self)
        ensures
            copy@ == self@,
    {
        clone_source(self)
    }
}

fn clone_source(source: &Source) -> (copy: Source)
    ensures
        copy@ == source@,
    decreases source,
{
    let sources = match &source.sources {
        Some(related) => Some(clone_sources(related)),
        None => None,
    };
    Source {
        name: clone_text(&source.name),
        path: clone_text(&source.path),
        source_reference: source.source_reference,
        presentation_hint: source.presentation_hint,
        origin: clone_text(&source.origin),
        sources,
        adapter_data: clone_text(&source.adapter_data),
        checksums: source.checksums.clone(),
    }
}

fn clone_sources(sources: &Vec<Source>) -> (copy: Vec<Source>)
    ensures
        sources_view(copy@) == sources_view(sources@),
    decreases sources,
{
    let mut copy: Vec<Source> = Vec::new();
    for i in 0..sources.len()
        invariant
            copy@.len() == i,
            forall|j: int| 0 <= j < i ==> source_view(#[trigger] copy@[j]) == source_view(sources@[j]),
    {
        copy.push(clone_source(&sources[i]));
    }
    assert(sources_view(copy@) =~= sources_view(sources@));
    copy
}

/// A module's identifier.
#[derive(Debug, PartialEq, Eq)]
pub enum NumberOrString {
    Number(i32),
    String(String),
}

/// The value that a [`NumberOrString`] stands for.
pub enum NumberOrStringView {
    Number(i32),
    String(Seq<char>),
}

impl View for NumberOrString {
    type V = NumberOrStringView;

    open spec fn view(&self) -> NumberOrStringView {
        match self {
            NumberOrString::Number(number) => NumberOrStringView::Number(*number),
            NumberOrString::String(text) => NumberOrStringView::String(text@),
        }
    }
}

impl DeepView for NumberOrString {
    type V = NumberOrStringView;

    open spec fn deep_view(&self) -> NumberOrStringView {
        self@
    }
}

impl Clone for NumberOrString {
    fn clone(&self) -> (copy: Self)
        ensures
            copy@ == self@,
    {
        match self {
            NumberOrString::Number(number) => NumberOrString::Number(*number),
            NumberOrString::String(text) => NumberOrString::String(text.clone()),
        }
    }
}

/// A frame of the call stack, as shown to the client.
#[derive(Debug, PartialEq, Eq)]
pub struct StackFrame {
    pub id: i32,
    pub name: String,
    pub source: Option<Source>,
    pub line: u32,
    pub column: u32,
    pub end_line: Option<u32>,
    pub end_column: Option<u32>,
    pub can_restart: Option<bool>,
    pub instruction_pointer_reference: Option<String>,
    pub module_id: Option<NumberOrString>,
    pub presentation_hint: Option<PresentationHint>,
}

/// The value that a [`StackFrame`] stands for.
pub struct StackFrameView {
    pub id: i32,
    pub name: Seq<char>,
    pub source: Option<SourceView>,
    pub line: u32,
    pub column: u32,
    pub end_line: Option<u32>,
    pub end_column: Option<u32>,
    pub can_restart: Option<bool>,
    pub instruction_pointer_reference: Option<Seq<char>>,
    pub module_id: Option<NumberOrStringView>,
    pub presentation_hint: Option<PresentationHint>,
}

impl View for StackFrame {
    type V = StackFrameView;

    open spec fn view(&self) -> StackFrameView {
        StackFrameView {
            id: self.id,
            name: self.name@,
            source: self.source.deep_view(),
            line: self.line,
            column: self.column,
            end_line: self.end_line,
            end_column: self.end_column,
            can_restart: self.can_restart,
            instruction_pointer_reference: self.instruction_pointer_reference.deep_view(),
            module_id: self.module_id.deep_view(),
            presentation_hint: self.presentation_hint,
        }
    }
}

impl DeepView for StackFrame {
    type V = StackFrameView;

    open spec fn deep_view(&self) -> StackFrameView {
        self@
    }
}

impl Clone for StackFrame {
    fn clone(&self) -> (copy: Self)
        ensures
            copy@ == self@,
    {
        StackFrame {
            id: self.id,
            name: self.name.clone(),
            source: self.source.clone(),
            line: self.line,
            column: self.column,
            end_line: self.end_line,
            end_column: self.end_column,
            can_restart: self.can_restart,
            instruction_pointer_reference: clone_text(&self.instruction_pointer_reference),
            module_id: self.module_id.clone(),
            presentation_hint: self.presentation_hint,
        }
    }
}

/// A named group of variables of a frame.
#[derive(Debug, PartialEq, Eq)]
pub struct Scope {
    pub name: String,
    pub presentation_hint: Option<PresentationHint>,
    pub variables_reference: i32,
    pub named_variables: Option<usize>,
    pub indexed_variables: Option<usize>,
    pub expensive: bool,
    pub source: Option<Source>,
    pub line: Option<i32>,
    pub column: Option<i32>,
    pub end_line: Option<i32>,
    pub end_column: Option<i32>,
}

/// The value that a [`Scope`] stands for.
pub struct ScopeView {
    pub name: Seq<char>,
    pub presentation_hint: Option<PresentationHint>,
    pub variables_reference: i32,
    pub named_variables: Option<usize>,
    pub indexed_variables: Option<usize>,
    pub expensive: bool,
    pub source: Option<SourceView>,
    pub line: Option<i32>,
    pub column: Option<i32>,
    pub end_line: Option<i32>,
    pub end_column: Option<i32>,
}

impl View for Scope {
    type V = ScopeView;

    open spec fn view(&self) -> ScopeView {
        ScopeView {
            name: self.name@,
            presentation_hint: self.presentation_hint,
            variables_reference: self.variables_reference,
            named_variables: self.named_variables,
            indexed_variables: self.indexed_variables,
            expensive: self.expensive,
            source: self.source.deep_view(),
            line: self.line,
            column: self.column,
            end_line: self.end_line,
            end_column: self.end_column,
        }
    }
}

impl DeepView for Scope {
    type V = ScopeView;

    open spec fn deep_view(&self) -> ScopeView {
        self@
    }
}

impl Clone for Scope {
    fn clone(&self) -> (copy: Self)
        ensures
            copy@ == self@,
    {
        Scope {
            name: self.name.clone(),
            presentation_hint: self.presentation_hint,
            variables_reference: self.variables_reference,
            named_variables: self.named_variables,
            indexed_variables: self.indexed_variables,
            expensive: self.expensive,
            source: self.source.clone(),
            line: self.line,
            column: self.column,
            end_line: self.end_line,
            end_column: self.end_column,
        }
    }
}

/// How a client should present a variable.
#[derive(Debug, PartialEq, Eq)]
pub struct VariablePresentationHint {
    pub kind: Option<VariableKind>,
    pub attributes: Option<Vec<VariableAttribute>>,
    pub visibility: Option<Visibility>,
    pub lazy: Option<bool>,
}

/// The value that a [`VariablePresentationHint`] stands for.
pub struct VariablePresentationHintView {
    pub kind: Option<VariableKind>,
    pub attributes: Option<Seq<VariableAttribute>>,
    pub visibility: Option<Visibility>,
    pub lazy: Option<bool>,
}

impl View for VariablePresentationHint {
    type V = VariablePresentationHintView;

    open spec fn view(&self) -> VariablePresentationHintView {
        VariablePresentationHintView {
            kind: self.kind,
            attributes: self.attributes.deep_view(),
            visibility: self.visibility,
            lazy: self.lazy,
        }
    }
}

impl DeepView for VariablePresentationHint {
    type V = VariablePresentationHintView;

    open spec fn deep_view(&self) -> VariablePresentationHintView {
        self@
    }
}

impl Clone for VariablePresentationHint {
    fn clone(&self) -> (copy: Self)
        ensures
            copy@ == self@,
    {
        VariablePresentationHint {
            kind: self.kind,
            attributes: self.attributes.clone(),
            visibility: self.visibility,
            lazy: self.lazy,
        }
    }
}

/// A name with its value and its type, all as text.
#[derive(Debug, PartialEq, Eq)]
pub struct Variable {
    pub name: String,
    pub value: String,
    pub var_type: Option<String>,
    pub presentation_hint: Option<VariablePresentationHint>,
    pub evaluate_name: Option<String>,
    pub variables_reference: i32,
    pub named_variables: Option<i32>,
    pub indexed_variables: Option<i32>,
    pub memory_reference: Option<String>,
}

/// The value that a [`Variable`] stands for.
pub struct VariableView {
    pub name: Seq<char>,
    pub value: Seq<char>,
    pub var_type: Option<Seq<char>>,
    pub presentation_hint: Option<VariablePresentationHintView>,
    pub evaluate_name: Option<Seq<char>>,
    pub variables_reference: i32,
    pub named_variables: Option<i32>,
    pub indexed_variables: Option<i32>,
    pub memory_reference: Option<Seq<char>>,
}

impl View for Variable {
    type V = VariableView;

    open spec fn view(&self) -> VariableView {
        VariableView {
            name: self.name@,
            value: self.value@,
            var_type: self.var_type.deep_view(),
            presentation_hint: self.presentation_hint.deep_view(),
            evaluate_name: self.evaluate_name.deep_view(),
            variables_reference: self.variables_reference,
            named_variables: self.named_variables,
            indexed_variables: self.indexed_variables,
            memory_reference: self.memory_reference.deep_view(),
        }
    }
}

impl DeepView for Variable {
    type V = VariableView;

    open spec fn deep_view(&self) -> VariableView {
        self@
    }
}

impl Clone for Variable {
    fn clone(&self) -> (copy: Self)
        ensures
            copy@ == self@,
    {
        Variable {
            name: self.name.clone(),
            value: self.value.clone(),
            var_type: clone_text(&self.var_type),
            presentation_hint: self.presentation_hint.clone(),
            evaluate_name: clone_text(&self.evaluate_name),
            variables_reference: self.variables_reference,
            named_variables: self.named_variables,
            indexed_variables: self.indexed_variables,
            memory_reference: clone_text(&self.memory_reference),
        }
    }
}

/// A breakpoint that the client asks for.
#[derive(Debug, PartialEq, Eq)]
pub struct SourceBreakpoint {
    pub line: u32,
    pub column: Option<u32>,
    pub condition: Option<String>,
    pub hit_condition: Option<String>,
    pub log_message: Option<String>,
}

/// The value that a [`SourceBreakpoint`] stands for.
pub struct SourceBreakpointView {
    pub line: u32,
    pub column: Option<u32>,
    pub condition: Option<Seq<char>>,
    pub hit_condition: Option<Seq<char>>,
    pub log_message: Option<Seq<char>>,
}

impl View for SourceBreakpoint {
    type V = SourceBreakpointView;

    open spec fn view(&self) -> SourceBreakpointView {
        SourceBreakpointView {
            line: self.line,
            column: self.column,
            condition: self.condition.deep_view(),
            hit_condition: self.hit_condition.deep_view(),
            log_message: self.log_message.deep_view(),
        }
    }
}

impl DeepView for SourceBreakpoint {
    type V = SourceBreakpointView;

    open spec fn deep_view(&self) -> SourceBreakpointView {
        self@
    }
}

/// What the client is told about a breakpoint.
#[derive(Debug, PartialEq, Eq)]
pub struct Breakpoint {
    pub id: Option<usize>,
    pub verified: bool,
    pub message: Option<String>,
    pub source: Option<Source>,
    pub line: Option<u32>,
    pub column: Option<u32>,
    pub end_line: Option<u32>,
    pub end_column: Option<u32>,
    pub instruction_reference: Option<String>,
    pub offset: Option<i32>,
}

/// The value that a [`Breakpoint`] stands for.
pub struct BreakpointView {
    pub id: Option<usize>,
    pub verified: bool,
    pub message: Option<Seq<char>>,
    pub source: Option<SourceView>,
    pub line: Option<u32>,
    pub column: Option<u32>,
    pub end_line: Option<u32>,
    pub end_column: Option<u32>,
    pub instruction_reference: Option<Seq<char>>,
    pub offset: Option<i32>,
}

impl View for Breakpoint {
    type V = BreakpointView;

    open spec fn view(&self) -> BreakpointView {
        BreakpointView {
            id: self.id,
            verified: self.verified,
            message: self.message.deep_view(),
            source: self.source.deep_view(),
            line: self.line,
            column: self.column,
            end_line: self.end_line,
            end_column: self.end_column,
            instruction_reference: self.instruction_reference.deep_view(),
            offset: self.offset,
        }
    }
}

impl DeepView for Breakpoint {
    type V = BreakpointView;

    open spec fn deep_view(&self) -> BreakpointView {
        self@
    }
}

/// A thread of the debuggee.
#[derive(Debug, PartialEq, Eq)]
pub struct Thread {
    pub id: i32,
    pub name: String,
}

/// The value that a [`Thread`] stands for.
pub struct ThreadView {
    pub id: i32,
    pub name: Seq<char>,
}

impl View for Thread {
    type V = ThreadView;

    open spec fn view(&self) -> ThreadView {
        ThreadView {
            id: self.id,
            name: self.name@,
        }
    }
}

impl DeepView for Thread {
    type V = ThreadView;

    open spec fn deep_view(&self) -> ThreadView {
        self@
    }
}

/// An option of the exception breakpoints dialog.
#[derive(Debug, PartialEq, Eq)]
pub struct ExceptionBreakpointsFilter {
    pub filter: String,
    pub label: String,
    pub description: Option<String>,
    pub default: Option<bool>,
    pub supports_condition: Option<bool>,
    pub condition_description: Option<String>,
}

/// The value that a [`ExceptionBreakpointsFilter`] stands for.
pub struct ExceptionBreakpointsFilterView {
    pub filter: Seq<char>,
    pub label: Seq<char>,
    pub description: Option<Seq<char>>,
    pub default: Option<bool>,
    pub supports_condition: Option<bool>,
    pub condition_description: Option<Seq<char>>,
}

impl View for ExceptionBreakpointsFilter {
    type V = ExceptionBreakpointsFilterView;

    open spec fn view(&self) -> ExceptionBreakpointsFilterView {
        ExceptionBreakpointsFilterView {
            filter: self.filter@,
            label: self.label@,
            description: self.description.deep_view(),
            default: self.default,
            supports_condition: self.supports_condition,
            condition_description: self.condition_description.deep_view(),
        }
    }
}

impl DeepView for ExceptionBreakpointsFilter {
    type V = ExceptionBreakpointsFilterView;

    open spec fn deep_view(&self) -> ExceptionBreakpointsFilterView {
        self@
    }
}

/// A column of the modules view.
#[derive(Debug, PartialEq, Eq)]
pub struct ColumnDescriptor {
    pub attribute_name: String,
    pub label: String,
    pub format: Option<String>,
    pub column_type: Option<ColumnType>,
    pub width: Option<i32>,
}

/// The value that a [`ColumnDescriptor`] stands for.
pub struct ColumnDescriptorView {
    pub attribute_name: Seq<char>,
    pub label: Seq<char>,
    pub format: Option<Seq<char>>,
    pub column_type: Option<ColumnType>,
    pub width: Option<i32>,
}

impl View for ColumnDescriptor {
    type V = ColumnDescriptorView;

    open spec fn view(&self) -> ColumnDescriptorView {
        ColumnDescriptorView {
            attribute_name: self.attribute_name@,
            label: self.label@,
            format: self.format.deep_view(),
            column_type: self.column_type,
            width: self.width,
        }
    }
}

impl DeepView for ColumnDescriptor {
    type V = ColumnDescriptorView;

    open spec fn deep_view(&self) -> ColumnDescriptorView {
        self@
    }
}

/// What the adapter supports beyond the base protocol.
#[derive(Debug, PartialEq, Eq)]
pub struct Capabilities {
    pub supports_configuration_done_request: Option<bool>,
    pub supports_function_breakpoints: Option<bool>,
    pub supports_conditional_breakpoints: Option<bool>,
    pub supports_hit_conditional_breakpoints: Option<bool>,
    pub supports_evaluate_for_hovers: Option<bool>,
    pub exception_breakpoint_filters: Option<Vec<ExceptionBreakpointsFilter>>,
    pub supports_step_back: Option<bool>,
    pub supports_set_variable: Option<bool>,
    pub supports_restart_frame: Option<bool>,
    pub supports_goto_targets_request: Option<bool>,
    pub supports_step_in_targets_request: Option<bool>,
    pub supports_completions_request: Option<bool>,
    pub completion_trigger_characters: Option<Vec<String>>,
    pub supports_modules_request: Option<bool>,
    pub additional_module_columns: Option<Vec<ColumnDescriptor>>,
    pub supported_checksum_algorithms: Option<Vec<ChecksumAlgorithm>>,
    pub supports_restart_request: Option<bool>,
    pub supports_exception_options: Option<bool>,
    pub supports_value_formatting_options: Option<bool>,
    pub supports_exception_info_request: Option<bool>,
    pub support_terminate_debuggee: Option<bool>,
    pub support_suspend_debuggee: Option<bool>,
    pub supports_delayed_stack_trace_loading: Option<bool>,
    pub supports_loaded_sources_request: Option<bool>,
    pub supports_log_points: Option<bool>,
    pub supports_terminate_threads_request: Option<bool>,
    pub supports_set_expression: Option<bool>,
    pub supports_terminate_request: Option<bool>,
    pub supports_data_breakpoints: Option<bool>,
    pub supports_read_memory_request: Option<bool>,
    pub supports_write_memory_request: Option<bool>,
    pub supports_disassemble_request: Option<bool>,
    pub supports_cancel_request: Option<bool>,
    pub supports_breakpoint_locations_request: Option<bool>,
    pub supports_clipboard_context: Option<bool>,
    pub supports_stepping_granularity: Option<bool>,
    pub supports_instruction_breakpoints: Option<bool>,
    pub supports_exception_filter_options: Option<bool>,
    pub supports_single_thread_execution_requests: Option<bool>,
}

/// The value that a [`Capabilities`] stands for.
pub struct CapabilitiesView {
    pub supports_configuration_done_request: Option<bool>,
    pub supports_function_breakpoints: Option<bool>,
    pub supports_conditional_breakpoints: Option<bool>,
    pub supports_hit_conditional_breakpoints: Option<bool>,
    pub supports_evaluate_for_hovers: Option<bool>,
    pub exception_breakpoint_filters: Option<Seq<ExceptionBreakpointsFilterView>>,
    pub supports_step_back: Option<bool>,
    pub supports_set_variable: Option<bool>,
    pub supports_restart_frame: Option<bool>,
    pub supports_goto_targets_request: Option<bool>,
    pub supports_step_in_targets_request: Option<bool>,
    pub supports_completions_request: Option<bool>,
    pub completion_trigger_characters: Option<Seq<Seq<char>>>,
    pub supports_modules_request: Option<bool>,
    pub additional_module_columns: Option<Seq<ColumnDescriptorView>>,
    pub supported_checksum_algorithms: Option<Seq<ChecksumAlgorithm>>,
    pub supports_restart_request: Option<bool>,
    pub supports_exception_options: Option<bool>,
    pub supports_value_formatting_options: Option<bool>,
    pub supports_exception_info_request: Option<bool>,
    pub support_terminate_debuggee: Option<bool>,
    pub support_suspend_debuggee: Option<bool>,
    pub supports_delayed_stack_trace_loading: Option<bool>,
    pub supports_loaded_sources_request: Option<bool>,
    pub supports_log_points: Option<bool>,
    pub supports_terminate_threads_request: Option<bool>,
    pub supports_set_expression: Option<bool>,
    pub supports_terminate_request: Option<bool>,
    pub supports_data_breakpoints: Option<bool>,
    pub supports_read_memory_request: Option<bool>,
    pub supports_write_memory_request: Option<bool>,
    pub supports_disassemble_request: Option<bool>,
    pub supports_cancel_request: Option<bool>,
    pub supports_breakpoint_locations_request: Option<bool>,
    pub supports_clipboard_context: Option<bool>,
    pub supports_stepping_granularity: Option<bool>,
    pub supports_instruction_breakpoints: Option<bool>,
    pub supports_exception_filter_options: Option<bool>,
    pub supports_single_thread_execution_requests: Option<bool>,
}

impl View for Capabilities {
    type V = CapabilitiesView;

    open spec fn view(&self) -> CapabilitiesView {
        CapabilitiesView {
            supports_configuration_done_request: self.supports_configuration_done_request,
            supports_function_breakpoints: self.supports_function_breakpoints,
            supports_conditional_breakpoints: self.supports_conditional_breakpoints,
            supports_hit_conditional_breakpoints: self.supports_hit_conditional_breakpoints,
            supports_evaluate_for_hovers: self.supports_evaluate_for_hovers,
            exception_breakpoint_filters: self.exception_breakpoint_filters.deep_view(),
            supports_step_back: self.supports_step_back,
            supports_set_variable: self.supports_set_variable,
            supports_restart_frame: self.supports_restart_frame,
            supports_goto_targets_request: self.supports_goto_targets_request,
            supports_step_in_targets_request: self.supports_step_in_targets_request,
            supports_completions_request: self.supports_completions_request,
            completion_trigger_characters: self.completion_trigger_characters.deep_view(),
            supports_modules_request: self.supports_modules_request,
            additional_module_columns: self.additional_module_columns.deep_view(),
            supported_checksum_algorithms: self.supported_checksum_algorithms.deep_view(),
            supports_restart_request: self.supports_restart_request,
            supports_exception_options: self.supports_exception_options,
            supports_value_formatting_options: self.supports_value_formatting_options,
            supports_exception_info_request: self.supports_exception_info_request,
            support_terminate_debuggee: self.support_terminate_debuggee,
            support_suspend_debuggee: self.support_suspend_debuggee,
            supports_delayed_stack_trace_loading: self.supports_delayed_stack_trace_loading,
            supports_loaded_sources_request: self.supports_loaded_sources_request,
            supports_log_points: self.supports_log_points,
            supports_terminate_threads_request: self.supports_terminate_threads_request,
            supports_set_expression: self.supports_set_expression,
            supports_terminate_request: self.supports_terminate_request,
            supports_data_breakpoints: self.supports_data_breakpoints,
            supports_read_memory_request: self.supports_read_memory_request,
            supports_write_memory_request: self.supports_write_memory_request,
            supports_disassemble_request: self.supports_disassemble_request,
            supports_cancel_request: self.supports_cancel_request,
            supports_breakpoint_locations_request: self.supports_breakpoint_locations_request,
            supports_clipboard_context: self.supports_clipboard_context,
            supports_stepping_granularity: self.supports_stepping_granularity,
            supports_instruction_breakpoints: self.supports_instruction_breakpoints,
            supports_exception_filter_options: self.supports_exception_filter_options,
            supports_single_thread_execution_requests: self.supports_single_thread_execution_requests,
        }
    }
}

impl DeepView for Capabilities {
    type V = CapabilitiesView;

    open spec fn deep_view(&self) -> CapabilitiesView {
        self@
    }
}

} // verus!
