//! The scopes of a frame, and the variables that they hold.

use crate::clarity::{
    type_for_value, Binding, BindingView, CallableContract, CallableContractView, ContractContext,
    DataMap, DataMapView, DataVariable, DataVariableView, LocalContext,
};
use crate::types::{PresentationHint, Scope, StackFrame, Variable, VariableView};
use vstd::prelude::*;

verus! {

fn flat_variable(name: &String, value: String, var_type: String) -> (variable: Variable)
    ensures
        variable@ == crate::model::flat_variable(name@, value@, var_type@),
{
    Variable {
        name: name.clone(),
        value,
        var_type: Some(var_type),
        presentation_hint: None,
        evaluate_name: None,
        variables_reference: 0,
        named_variables: None,
        indexed_variables: None,
        memory_reference: None,
    }
}

/// Something that a scope lists as a variable.
trait Shown: DeepView {
    /// How a value is shown.
    spec fn shown(value: Self::V) -> VariableView;

    fn show(&self) -> (variable: Variable)
        ensures
            variable@ == Self::shown(self.deep_view()),
    ;
}

impl Shown for Binding {
    spec fn shown(value: BindingView) -> VariableView {
        crate::model::binding_variable(value)
    }

    fn show(&self) -> (variable: Variable) {
        flat_variable(&self.name, self.value.text.clone(), type_for_value(&self.value))
    }
}

impl Shown for CallableContract {
    spec fn shown(value: CallableContractView) -> VariableView {
        crate::model::callable_variable(value)
    }

    fn show(&self) -> (variable: Variable) {
        flat_variable(&self.name, self.contract_id.text.clone(), self.trait_id.clone())
    }
}

impl Shown for DataVariable {
    spec fn shown(value: DataVariableView) -> VariableView {
        crate::model::data_variable(value)
    }

    fn show(&self) -> (variable: Variable) {
        flat_variable(&self.name, self.value.text.clone(), self.value_type.clone())
    }
}

impl Shown for DataMap {
    spec fn shown(value: DataMapView) -> VariableView {
        crate::model::map_variable(value)
    }

    fn show(&self) -> (variable: Variable) {
        let var_type = "{".to_string().concat(self.key_type.as_str()).concat(": ").concat(
            self.value_type.as_str(),
        ).concat("}");
        flat_variable(&self.name, String::new(), var_type)
    }
}

/// Appends `items`, as they are shown, to `variables`.
fn append<T: Shown>(variables: &mut Vec<Variable>, items: &Vec<T>)
    ensures
        final(variables).deep_view() == old(variables).deep_view() + items.deep_view().map_values(
            |item: T::V| T::shown(item),
        ),
{
    let ghost listed = items.deep_view().map_values(|item: T::V| T::shown(item));
    for i in 0..items.len()
        invariant
            listed == items.deep_view().map_values(|item: T::V| T::shown(item)),
            variables.deep_view() == old(variables).deep_view() + listed.take(i as int),
    {
        let ghost before = variables.deep_view();
        variables.push(items[i].show());
        assert(items.deep_view()[i as int] == items[i as int].deep_view());
        assert(variables.deep_view() =~= before.push(listed[i as int]));
        assert(variables.deep_view() =~= old(variables).deep_view() + listed.take(i + 1));
    }
    assert(listed.take(items.len() as int) =~= listed);
}

/// Lists what the scope of `context` holds.
pub(crate) fn context_variables(context: &LocalContext) -> (variables: Vec<Variable>)
    ensures
        variables.deep_view() == crate::model::context_variables(context.bindings()),
{
    let mut variables: Vec<Variable> = Vec::new();
    append(&mut variables, &context.variables);
    append(&mut variables, &context.callable_contracts);
    assert(variables.deep_view() =~= crate::model::context_variables(context.bindings()));
    variables
}

/// Lists what the scope of `contract` holds.
pub(crate) fn contract_variables(contract: &ContractContext) -> (variables: Vec<Variable>)
    ensures
        variables.deep_view() == crate::model::contract_variables(contract@),
{
    let mut variables: Vec<Variable> = Vec::new();
    append(&mut variables, &contract.variables);
    append(&mut variables, &contract.meta_data_var);
    append(&mut variables, &contract.meta_data_map);
    assert(variables.deep_view() =~= crate::model::contract_variables(contract@));
    variables
}

/// The scope of `context`, which is at `index` among the scopes of `frame`.
pub(crate) fn local_scope(frame: &StackFrame, context: &LocalContext, index: usize) -> (scope: Scope)
    requires
        i32::MIN <= crate::model::scope_reference(frame.id, 0),
        crate::model::scope_reference(frame.id, index as int) <= i32::MAX,
        context.variables@.len() + context.callable_contracts@.len() <= usize::MAX,
    ensures
        scope@ == crate::model::local_scope(frame@, context.bindings(), index as int),
{
    let (name, hint) = if context.depth == 0 {
        ("Arguments".to_string(), PresentationHint::Arguments)
    } else {
        ("Locals".to_string(), PresentationHint::Locals)
    };
    Scope {
        name,
        presentation_hint: Some(hint),
        variables_reference: reference(frame.id, index),
        named_variables: Some(context.variables.len() + context.callable_contracts.len()),
        indexed_variables: None,
        expensive: false,
        source: frame.source.clone(),
        line: None,
        column: None,
        end_line: None,
        end_column: None,
    }
}

/// The scope of `contract`, which is at `index` among the scopes of `frame`.
pub(crate) fn contract_scope(frame: &StackFrame, contract: &ContractContext, index: usize) -> (scope:
    Scope)
    requires
        i32::MIN <= crate::model::scope_reference(frame.id, 0),
        crate::model::scope_reference(frame.id, index as int) <= i32::MAX,
    ensures
        scope@ == crate::model::contract_scope(frame@, contract@, index as int),
{
    Scope {
        name: "Contract Variables".to_string(),
        presentation_hint: None,
        variables_reference: reference(frame.id, index),
        named_variables: Some(contract.variables.len()),
        indexed_variables: None,
        expensive: true,
        source: frame.source.clone(),
        line: None,
        column: None,
        end_line: None,
        end_column: None,
    }
}

/// The reference of the scope at `index` of the frame with the number `frame_id`.
pub(crate) fn reference(frame_id: i32, index: usize) -> (reference: i32)
    requires
        i32::MIN <= crate::model::scope_reference(frame_id, 0),
        crate::model::scope_reference(frame_id, index as int) <= i32::MAX,
    ensures
        reference == crate::model::scope_reference(frame_id, index as int),
{
    (frame_id as i64 * 1000 + index as i64) as i32
}

} // verus!
