//! Views leave nothing out: what the laws say of a view, they say of the value.

use crate::clarity::{
    Binding, CallableContract, ClarityValue, ContractContext, DataMap, DataVariable, Environment,
    FunctionIdentifier, QualifiedContractIdentifier, ValueKind, ValueKindView,
};
use crate::engine::{Action, ActionView, BreakpointOrder, EngineBreakpoint};
use crate::messages::{
    ContinueResponse, Event, EventBody, EventBodyView, InitializeResponse, LaunchRequestArguments,
    MessageKind, MessageKindView, OutputEvent, ProtocolMessage, RequestCommand, RequestCommandView,
    Response, ResponseBody, ResponseBodyView, ScopesArguments, ScopesResponse,
    SetBreakpointsArguments, SetBreakpointsResponse, SetExceptionBreakpointsResponse,
    StackTraceResponse, StoppedEvent, ThreadsResponse, VariablesArguments, VariablesResponse,
};
use crate::types::{
    Breakpoint, Capabilities, Checksum, ColumnDescriptor, ExceptionBreakpointsFilter,
    NumberOrString, NumberOrStringView, Scope, Source, SourceBreakpoint, StackFrame, Thread,
    Variable, VariablePresentationHint,
};
use vstd::prelude::*;

verus! {

/// The view of a [`Source`] has all that it holds, its related sources and theirs included.
pub proof fn law_view_of_source(value: Source)
    ensures
        value@.name == value.name.deep_view(),
        value@.path == value.path.deep_view(),
        value@.source_reference == value.source_reference,
        value@.presentation_hint == value.presentation_hint,
        value@.origin == value.origin.deep_view(),
        value.sources is None ==> value@.sources is None,
        value.sources matches Some(related) ==> {
            &&& value@.sources is Some
            &&& value@.sources->0.len() == related@.len()
            &&& forall|i: int|
                0 <= i < related@.len() ==> #[trigger] value@.sources->0[i] == related@[i]@
        },
        value@.adapter_data == value.adapter_data.deep_view(),
        value@.checksums == value.checksums.deep_view(),
        value.deep_view() == value@,
{
}

/// The view of a [`Checksum`] has all that it holds.
pub proof fn law_view_of_checksum(value: Checksum)
    ensures
        value@.algorithm == value.algorithm,
        value@.checksum == value.checksum@,
        value.deep_view() == value@,
{
}

/// The view of a [`NumberOrString`] has all that it holds.
pub proof fn law_view_of_number_or_string(value: NumberOrString)
    ensures
        value matches NumberOrString::Number(inner) ==> value@ == NumberOrStringView::Number(inner),
        value matches NumberOrString::String(inner) ==> value@ == NumberOrStringView::String(inner@),
        value.deep_view() == value@,
{
}

/// The view of a [`StackFrame`] has all that it holds.
pub proof fn law_view_of_stack_frame(value: StackFrame)
    ensures
        value@.id == value.id,
        value@.name == value.name@,
        value@.source == value.source.deep_view(),
        value@.line == value.line,
        value@.column == value.column,
        value@.end_line == value.end_line,
        value@.end_column == value.end_column,
        value@.can_restart == value.can_restart,
        value@.instruction_pointer_reference == value.instruction_pointer_reference.deep_view(),
        value@.module_id == value.module_id.deep_view(),
        value@.presentation_hint == value.presentation_hint,
        value.deep_view() == value@,
{
}

/// The view of a [`Scope`] has all that it holds.
pub proof fn law_view_of_scope(value: Scope)
    ensures
        value@.name == value.name@,
        value@.presentation_hint == value.presentation_hint,
        value@.variables_reference == value.variables_reference,
        value@.named_variables == value.named_variables,
        value@.indexed_variables == value.indexed_variables,
        value@.expensive == value.expensive,
        value@.source == value.source.deep_view(),
        value@.line == value.line,
        value@.column == value.column,
        value@.end_line == value.end_line,
        value@.end_column == value.end_column,
        value.deep_view() == value@,
{
}

/// The view of a [`VariablePresentationHint`] has all that it holds.
pub proof fn law_view_of_variable_presentation_hint(value: VariablePresentationHint)
    ensures
        value@.kind == value.kind,
        value@.attributes == value.attributes.deep_view(),
        value@.visibility == value.visibility,
        value@.lazy == value.lazy,
        value.deep_view() == value@,
{
}

/// The view of a [`Variable`] has all that it holds.
pub proof fn law_view_of_variable(value: Variable)
    ensures
        value@.name == value.name@,
        value@.value == value.value@,
        value@.var_type == value.var_type.deep_view(),
        value@.presentation_hint == value.presentation_hint.deep_view(),
        value@.evaluate_name == value.evaluate_name.deep_view(),
        value@.variables_reference == value.variables_reference,
        value@.named_variables == value.named_variables,
        value@.indexed_variables == value.indexed_variables,
        value@.memory_reference == value.memory_reference.deep_view(),
        value.deep_view() == value@,
{
}

/// The view of a [`SourceBreakpoint`] has all that it holds.
pub proof fn law_view_of_source_breakpoint(value: SourceBreakpoint)
    ensures
        value@.line == value.line,
        value@.column == value.column,
        value@.condition == value.condition.deep_view(),
        value@.hit_condition == value.hit_condition.deep_view(),
        value@.log_message == value.log_message.deep_view(),
        value.deep_view() == value@,
{
}

/// The view of a [`Breakpoint`] has all that it holds.
pub proof fn law_view_of_breakpoint(value: Breakpoint)
    ensures
        value@.id == value.id,
        value@.verified == value.verified,
        value@.message == value.message.deep_view(),
        value@.source == value.source.deep_view(),
        value@.line == value.line,
        value@.column == value.column,
        value@.end_line == value.end_line,
        value@.end_column == value.end_column,
        value@.instruction_reference == value.instruction_reference.deep_view(),
        value@.offset == value.offset,
        value.deep_view() == value@,
{
}

/// The view of a [`Thread`] has all that it holds.
pub proof fn law_view_of_thread(value: Thread)
    ensures
        value@.id == value.id,
        value@.name == value.name@,
        value.deep_view() == value@,
{
}

/// The view of an [`ExceptionBreakpointsFilter`] has all that it holds.
pub proof fn law_view_of_exception_breakpoints_filter(value: ExceptionBreakpointsFilter)
    ensures
        value@.filter == value.filter@,
        value@.label == value.label@,
        value@.description == value.description.deep_view(),
        value@.default == value.default,
        value@.supports_condition == value.supports_condition,
        value@.condition_description == value.condition_description.deep_view(),
        value.deep_view() == value@,
{
}

/// The view of a [`ColumnDescriptor`] has all that it holds.
pub proof fn law_view_of_column_descriptor(value: ColumnDescriptor)
    ensures
        value@.attribute_name == value.attribute_name@,
        value@.label == value.label@,
        value@.format == value.format.deep_view(),
        value@.column_type == value.column_type,
        value@.width == value.width,
        value.deep_view() == value@,
{
}

/// The view of a [`Capabilities`] has all that it holds.
pub proof fn law_view_of_capabilities(value: Capabilities)
    ensures
        value@.supports_configuration_done_request == value.supports_configuration_done_request,
        value@.supports_function_breakpoints == value.supports_function_breakpoints,
        value@.supports_conditional_breakpoints == value.supports_conditional_breakpoints,
        value@.supports_hit_conditional_breakpoints == value.supports_hit_conditional_breakpoints,
        value@.supports_evaluate_for_hovers == value.supports_evaluate_for_hovers,
        value@.exception_breakpoint_filters == value.exception_breakpoint_filters.deep_view(),
        value@.supports_step_back == value.supports_step_back,
        value@.supports_set_variable == value.supports_set_variable,
        value@.supports_restart_frame == value.supports_restart_frame,
        value@.supports_goto_targets_request == value.supports_goto_targets_request,
        value@.supports_step_in_targets_request == value.supports_step_in_targets_request,
        value@.supports_completions_request == value.supports_completions_request,
        value@.completion_trigger_characters == value.completion_trigger_characters.deep_view(),
        value@.supports_modules_request == value.supports_modules_request,
        value@.additional_module_columns == value.additional_module_columns.deep_view(),
        value@.supported_checksum_algorithms == value.supported_checksum_algorithms.deep_view(),
        value@.supports_restart_request == value.supports_restart_request,
        value@.supports_exception_options == value.supports_exception_options,
        value@.supports_value_formatting_options == value.supports_value_formatting_options,
        value@.supports_exception_info_request == value.supports_exception_info_request,
        value@.support_terminate_debuggee == value.support_terminate_debuggee,
        value@.support_suspend_debuggee == value.support_suspend_debuggee,
        value@.supports_delayed_stack_trace_loading == value.supports_delayed_stack_trace_loading,
        value@.supports_loaded_sources_request == value.supports_loaded_sources_request,
        value@.supports_log_points == value.supports_log_points,
        value@.supports_terminate_threads_request == value.supports_terminate_threads_request,
        value@.supports_set_expression == value.supports_set_expression,
        value@.supports_terminate_request == value.supports_terminate_request,
        value@.supports_data_breakpoints == value.supports_data_breakpoints,
        value@.supports_read_memory_request == value.supports_read_memory_request,
        value@.supports_write_memory_request == value.supports_write_memory_request,
        value@.supports_disassemble_request == value.supports_disassemble_request,
        value@.supports_cancel_request == value.supports_cancel_request,
        value@.supports_breakpoint_locations_request == value.supports_breakpoint_locations_request,
        value@.supports_clipboard_context == value.supports_clipboard_context,
        value@.supports_stepping_granularity == value.supports_stepping_granularity,
        value@.supports_instruction_breakpoints == value.supports_instruction_breakpoints,
        value@.supports_exception_filter_options == value.supports_exception_filter_options,
        value@.supports_single_thread_execution_requests == value.supports_single_thread_execution_requests,
        value.deep_view() == value@,
{
}

/// The view of a [`LaunchRequestArguments`] has all that it holds.
pub proof fn law_view_of_launch_request_arguments(value: LaunchRequestArguments)
    ensures
        value@.manifest == value.manifest.deep_view(),
        value@.expression == value.expression.deep_view(),
        value.deep_view() == value@,
{
}

/// The view of a [`SetBreakpointsArguments`] has all that it holds.
pub proof fn law_view_of_set_breakpoints_arguments(value: SetBreakpointsArguments)
    ensures
        value@.source == value.source@,
        value@.breakpoints == value.breakpoints.deep_view(),
        value.deep_view() == value@,
{
}

/// The view of a [`ScopesArguments`] has all that it holds.
pub proof fn law_view_of_scopes_arguments(value: ScopesArguments)
    ensures
        value@.frame_id == value.frame_id,
        value.deep_view() == value@,
{
}

/// The view of a [`VariablesArguments`] has all that it holds.
pub proof fn law_view_of_variables_arguments(value: VariablesArguments)
    ensures
        value@.variables_reference == value.variables_reference,
        value.deep_view() == value@,
{
}

/// The view of a [`RequestCommand`] has all that it holds.
pub proof fn law_view_of_request_command(value: RequestCommand)
    ensures
        value is Initialize ==> value@ is Initialize,
        value is ConfigurationDone ==> value@ is ConfigurationDone,
        value matches RequestCommand::Launch(inner) ==> value@ == RequestCommandView::Launch(inner@),
        value matches RequestCommand::SetBreakpoints(inner) ==> value@ == RequestCommandView::SetBreakpoints(inner@),
        value is SetExceptionBreakpoints ==> value@ is SetExceptionBreakpoints,
        value is Disconnect ==> value@ is Disconnect,
        value is Threads ==> value@ is Threads,
        value is StackTrace ==> value@ is StackTrace,
        value matches RequestCommand::Scopes(inner) ==> value@ == RequestCommandView::Scopes(inner@),
        value matches RequestCommand::Variables(inner) ==> value@ == RequestCommandView::Variables(inner@),
        value is StepIn ==> value@ is StepIn,
        value is StepOut ==> value@ is StepOut,
        value is Next ==> value@ is Next,
        value is Continue ==> value@ is Continue,
        value is Pause ==> value@ is Pause,
        value is Unsupported ==> value@ is Unsupported,
        value.deep_view() == value@,
{
}

/// The view of an [`InitializeResponse`] has all that it holds.
pub proof fn law_view_of_initialize_response(value: InitializeResponse)
    ensures
        value@.capabilities == value.capabilities@,
        value.deep_view() == value@,
{
}

/// The view of a [`SetBreakpointsResponse`] has all that it holds.
pub proof fn law_view_of_set_breakpoints_response(value: SetBreakpointsResponse)
    ensures
        value@.breakpoints == value.breakpoints.deep_view(),
        value.deep_view() == value@,
{
}

/// The view of a [`SetExceptionBreakpointsResponse`] has all that it holds.
pub proof fn law_view_of_set_exception_breakpoints_response(value: SetExceptionBreakpointsResponse)
    ensures
        value@.breakpoints == value.breakpoints.deep_view(),
        value.deep_view() == value@,
{
}

/// The view of a [`ContinueResponse`] has all that it holds.
pub proof fn law_view_of_continue_response(value: ContinueResponse)
    ensures
        value@.all_threads_continued == value.all_threads_continued,
        value.deep_view() == value@,
{
}

/// The view of a [`StackTraceResponse`] has all that it holds.
pub proof fn law_view_of_stack_trace_response(value: StackTraceResponse)
    ensures
        value@.stack_frames == value.stack_frames.deep_view(),
        value@.total_frames == value.total_frames,
        value.deep_view() == value@,
{
}

/// The view of a [`ScopesResponse`] has all that it holds.
pub proof fn law_view_of_scopes_response(value: ScopesResponse)
    ensures
        value@.scopes == value.scopes.deep_view(),
        value.deep_view() == value@,
{
}

/// The view of a [`VariablesResponse`] has all that it holds.
pub proof fn law_view_of_variables_response(value: VariablesResponse)
    ensures
        value@.variables == value.variables.deep_view(),
        value.deep_view() == value@,
{
}

/// The view of a [`ThreadsResponse`] has all that it holds.
pub proof fn law_view_of_threads_response(value: ThreadsResponse)
    ensures
        value@.threads == value.threads.deep_view(),
        value.deep_view() == value@,
{
}

/// The view of a [`ResponseBody`] has all that it holds.
pub proof fn law_view_of_response_body(value: ResponseBody)
    ensures
        value matches ResponseBody::Initialize(inner) ==> value@ == ResponseBodyView::Initialize(inner@),
        value is ConfigurationDone ==> value@ is ConfigurationDone,
        value is Launch ==> value@ is Launch,
        value is Disconnect ==> value@ is Disconnect,
        value matches ResponseBody::SetBreakpoints(inner) ==> value@ == ResponseBodyView::SetBreakpoints(inner@),
        value matches ResponseBody::SetExceptionBreakpoints(inner) ==> value@ == ResponseBodyView::SetExceptionBreakpoints(inner@),
        value matches ResponseBody::Continue(inner) ==> value@ == ResponseBodyView::Continue(inner@),
        value is Next ==> value@ is Next,
        value is StepIn ==> value@ is StepIn,
        value is StepOut ==> value@ is StepOut,
        value is Pause ==> value@ is Pause,
        value matches ResponseBody::StackTrace(inner) ==> value@ == ResponseBodyView::StackTrace(inner@),
        value matches ResponseBody::Scopes(inner) ==> value@ == ResponseBodyView::Scopes(inner@),
        value matches ResponseBody::Variables(inner) ==> value@ == ResponseBodyView::Variables(inner@),
        value matches ResponseBody::Threads(inner) ==> value@ == ResponseBodyView::Threads(inner@),
        value is Other ==> value@ is Other,
        value.deep_view() == value@,
{
}

/// The view of a [`Response`] has all that it holds.
pub proof fn law_view_of_response(value: Response)
    ensures
        value@.request_seq == value.request_seq,
        value@.success == value.success,
        value@.message == value.message.deep_view(),
        value@.body == value.body.deep_view(),
        value.deep_view() == value@,
{
}

/// The view of a [`StoppedEvent`] has all that it holds.
pub proof fn law_view_of_stopped_event(value: StoppedEvent)
    ensures
        value@.reason == value.reason,
        value@.description == value.description.deep_view(),
        value@.thread_id == value.thread_id,
        value@.preserve_focus_hint == value.preserve_focus_hint,
        value@.text == value.text.deep_view(),
        value@.all_threads_stopped == value.all_threads_stopped,
        value@.hit_breakpoint_ids == value.hit_breakpoint_ids.deep_view(),
        value.deep_view() == value@,
{
}

/// The view of an [`OutputEvent`] has all that it holds.
pub proof fn law_view_of_output_event(value: OutputEvent)
    ensures
        value@.category == value.category,
        value@.output == value.output@,
        value@.group == value.group,
        value@.variables_reference == value.variables_reference,
        value@.source == value.source.deep_view(),
        value@.line == value.line,
        value@.column == value.column,
        value@.data == value.data.deep_view(),
        value.deep_view() == value@,
{
}

/// The view of an [`EventBody`] has all that it holds.
pub proof fn law_view_of_event_body(value: EventBody)
    ensures
        value is Initialized ==> value@ is Initialized,
        value matches EventBody::Stopped(inner) ==> value@ == EventBodyView::Stopped(inner@),
        value matches EventBody::Output(inner) ==> value@ == EventBodyView::Output(inner@),
        value is Other ==> value@ is Other,
        value.deep_view() == value@,
{
}

/// The view of an [`Event`] has all that it holds.
pub proof fn law_view_of_event(value: Event)
    ensures
        value@.body == value.body.deep_view(),
        value.deep_view() == value@,
{
}

/// The view of a [`MessageKind`] has all that it holds.
pub proof fn law_view_of_message_kind(value: MessageKind)
    ensures
        value matches MessageKind::Request(inner) ==> value@ == MessageKindView::Request(inner@),
        value matches MessageKind::Response(inner) ==> value@ == MessageKindView::Response(inner@),
        value matches MessageKind::Event(inner) ==> value@ == MessageKindView::Event(inner@),
        value.deep_view() == value@,
{
}

/// The view of a [`ProtocolMessage`] has all that it holds.
pub proof fn law_view_of_protocol_message(value: ProtocolMessage)
    ensures
        value@.seq == value.seq as int,
        value@.message == value.message@,
        value.deep_view() == value@,
{
}

/// The view of a [`QualifiedContractIdentifier`] has all that it holds.
pub proof fn law_view_of_qualified_contract_identifier(value: QualifiedContractIdentifier)
    ensures
        value@.text == value.text@,
        value.deep_view() == value@,
{
}

/// The view of a [`FunctionIdentifier`] has all that it holds.
pub proof fn law_view_of_function_identifier(value: FunctionIdentifier)
    ensures
        value@.identifier == value.identifier@,
        value.deep_view() == value@,
{
}

/// The view of a [`ValueKind`] has all that it holds.
pub proof fn law_view_of_value_kind(value: ValueKind)
    ensures
        value is Int ==> value@ is Int,
        value is UInt ==> value@ is UInt,
        value is Bool ==> value@ is Bool,
        value matches ValueKind::Tuple(inner) ==> value@ == ValueKindView::Tuple(inner@),
        value is Principal ==> value@ is Principal,
        value matches ValueKind::Optional(inner) ==> value@ == ValueKindView::Optional(inner@),
        value matches ValueKind::Response(inner) ==> value@ == ValueKindView::Response(inner@),
        value matches ValueKind::Sequence(inner) ==> value@ == ValueKindView::Sequence(inner),
        value.deep_view() == value@,
{
}

/// The view of a [`ClarityValue`] has all that it holds.
pub proof fn law_view_of_clarity_value(value: ClarityValue)
    ensures
        value@.kind == value.kind@,
        value@.text == value.text@,
        value.deep_view() == value@,
{
}

/// The view of a [`Binding`] has all that it holds.
pub proof fn law_view_of_binding(value: Binding)
    ensures
        value@.name == value.name@,
        value@.value == value.value@,
        value.deep_view() == value@,
{
}

/// The view of a [`CallableContract`] has all that it holds.
pub proof fn law_view_of_callable_contract(value: CallableContract)
    ensures
        value@.name == value.name@,
        value@.contract_id == value.contract_id@,
        value@.trait_id == value.trait_id@,
        value.deep_view() == value@,
{
}

/// The view of a [`DataVariable`] has all that it holds.
pub proof fn law_view_of_data_variable(value: DataVariable)
    ensures
        value@.name == value.name@,
        value@.value == value.value@,
        value@.value_type == value.value_type@,
        value.deep_view() == value@,
{
}

/// The view of a [`DataMap`] has all that it holds.
pub proof fn law_view_of_data_map(value: DataMap)
    ensures
        value@.name == value.name@,
        value@.key_type == value.key_type@,
        value@.value_type == value.value_type@,
        value.deep_view() == value@,
{
}

/// The view of a [`ContractContext`] has all that it holds.
pub proof fn law_view_of_contract_context(value: ContractContext)
    ensures
        value@.contract_identifier == value.contract_identifier@,
        value@.variables == value.variables.deep_view(),
        value@.meta_data_var == value.meta_data_var.deep_view(),
        value@.meta_data_map == value.meta_data_map.deep_view(),
        value.deep_view() == value@,
{
}

/// The view of an [`Environment`] has all that it holds.
pub proof fn law_view_of_environment(value: Environment)
    ensures
        value@.contract_context == value.contract_context@,
        value@.call_stack == value.call_stack.deep_view(),
        value.deep_view() == value@,
{
}

/// The view of an [`EngineBreakpoint`] has all that it holds.
pub proof fn law_view_of_engine_breakpoint(value: EngineBreakpoint)
    ensures
        value@.id == value.id,
        value@.verified == value.verified,
        value@.data == value.data,
        value@.source == value.source@,
        value@.span == value.span,
        value.deep_view() == value@,
{
}

/// The view of a [`BreakpointOrder`] has all that it holds.
pub proof fn law_view_of_breakpoint_order(value: BreakpointOrder)
    ensures
        value@.seq == value.seq,
        value@.arguments == value.arguments@,
        value@.breakpoints == value.breakpoints.deep_view(),
        value.deep_view() == value@,
{
}

/// The view of an [`Action`] has all that it holds.
pub proof fn law_view_of_action(value: Action)
    ensures
        value matches Action::Send(inner) ==> value@ == ActionView::Send(inner@),
        value matches Action::Start(inner) ==> value@ == ActionView::Start(inner@),
        value matches Action::AddBreakpoints(inner) ==> value@ == ActionView::AddBreakpoints(inner@),
        value is StepIn ==> value@ is StepIn,
        value is Finish ==> value@ is Finish,
        value matches Action::StepOver(inner) ==> value@ == ActionView::StepOver(inner),
        value is ContinueExecution ==> value@ is ContinueExecution,
        value is Pause ==> value@ is Pause,
        value is Quit ==> value@ is Quit,
        value.deep_view() == value@,
{
}

} // verus!
