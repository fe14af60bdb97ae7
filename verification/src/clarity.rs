//! What the adapter is told about the program that runs: values, names and the contexts that bind
//! them.

use vstd::prelude::*;

verus! {

/// The name of a contract, as it prints.
#[derive(Debug, PartialEq, Eq)]
pub struct QualifiedContractIdentifier {
    pub text: String,
}

/// The value that a [`QualifiedContractIdentifier`] stands for.
pub struct QualifiedContractIdentifierView {
    pub text: Seq<char>,
}

impl View for QualifiedContractIdentifier {
    type V = QualifiedContractIdentifierView;

    open spec fn view(&self) -> QualifiedContractIdentifierView {
        QualifiedContractIdentifierView {
            text: self.text@,
        }
    }
}

impl DeepView for QualifiedContractIdentifier {
    type V = QualifiedContractIdentifierView;

    open spec fn deep_view(&self) -> QualifiedContractIdentifierView {
        self@
    }
}

impl Clone for QualifiedContractIdentifier {
    fn clone(&self) -> (copy: Self)
        ensures
            copy@ == self@,
    {
        QualifiedContractIdentifier {
            text: self.text.clone(),
        }
    }
}

/// The name of a function on the call stack.
#[derive(Debug, PartialEq, Eq)]
pub struct FunctionIdentifier {
    pub identifier: String,
}

/// The value that a [`FunctionIdentifier`] stands for.
pub struct FunctionIdentifierView {
    pub identifier: Seq<char>,
}

impl View for FunctionIdentifier {
    type V = FunctionIdentifierView;

    open spec fn view(&self) -> FunctionIdentifierView {
        FunctionIdentifierView {
            identifier: self.identifier@,
        }
    }
}

impl DeepView for FunctionIdentifier {
    type V = FunctionIdentifierView;

    open spec fn deep_view(&self) -> FunctionIdentifierView {
        self@
    }
}

impl Clone for FunctionIdentifier {
    fn clone(&self) -> (copy: Self)
        ensures
            copy@ == self@,
    {
        FunctionIdentifier {
            identifier: self.identifier.clone(),
        }
    }
}

/// A range of source text.
#[derive(Clone, Copy, Debug, PartialEq, Eq, Structural)]
pub struct Span {
    pub start_line: u32,
    pub start_column: u32,
    pub end_line: u32,
    pub end_column: u32,
}

/// An expression: its number in the program and the source text it stands for.
#[derive(Clone, Copy, Debug, PartialEq, Eq, Structural)]
pub struct SymbolicExpression {
    pub id: u64,
    pub span: Span,
}

/// The kinds of sequences.
#[derive(Clone, Copy, Debug, PartialEq, Eq, Structural)]
pub enum SequenceData {
    Buffer,
    String,
    List,
}

/// The shape of a value. Where the type of a value depends on what it holds, the shape comes with the
/// type signature, as it prints.
#[derive(Debug, PartialEq, Eq)]
pub enum ValueKind {
    Int,
    UInt,
    Bool,
    Tuple(String),
    Principal,
    Optional(String),
    Response(String),
    Sequence(SequenceData),
}

/// The value that a [`ValueKind`] stands for.
pub enum ValueKindView {
    Int,
    UInt,
    Bool,
    Tuple(Seq<char>),
    Principal,
    Optional(Seq<char>),
    Response(Seq<char>),
    Sequence(SequenceData),
}

impl View for ValueKind {
    type V = ValueKindView;

    open spec fn view(&self) -> ValueKindView {
        match self {
            ValueKind::Int => ValueKindView::Int,
            ValueKind::UInt => ValueKindView::UInt,
            ValueKind::Bool => ValueKindView::Bool,
            ValueKind::Tuple(inner) => ValueKindView::Tuple(inner@),
            ValueKind::Principal => ValueKindView::Principal,
            ValueKind::Optional(inner) => ValueKindView::Optional(inner@),
            ValueKind::Response(inner) => ValueKindView::Response(inner@),
            ValueKind::Sequence(inner) => ValueKindView::Sequence(*inner),
        }
    }
}

impl DeepView for ValueKind {
    type V = ValueKindView;

    open spec fn deep_view(&self) -> ValueKindView {
        self@
    }
}

/// A value: its shape, and how it prints.
#[derive(Debug, PartialEq, Eq)]
pub struct ClarityValue {
    pub kind: ValueKind,
    pub text: String,
}

/// The value that a [`ClarityValue`] stands for.
pub struct ClarityValueView {
    pub kind: ValueKindView,
    pub text: Seq<char>,
}

impl View for ClarityValue {
    type V = ClarityValueView;

    open spec fn view(&self) -> ClarityValueView {
        ClarityValueView {
            kind: self.kind@,
            text: self.text@,
        }
    }
}

impl DeepView for ClarityValue {
    type V = ClarityValueView;

    open spec fn deep_view(&self) -> ClarityValueView {
        self@
    }
}

/// A name with the value that it is bound to.
#[derive(Debug, PartialEq, Eq)]
pub struct Binding {
    pub name: String,
    pub value: ClarityValue,
}

/// The value that a [`Binding`] stands for.
pub struct BindingView {
    pub name: Seq<char>,
    pub value: ClarityValueView,
}

impl View for Binding {
    type V = BindingView;

    open spec fn view(&self) -> BindingView {
        BindingView {
            name: self.name@,
            value: self.value@,
        }
    }
}

impl DeepView for Binding {
    type V = BindingView;

    open spec fn deep_view(&self) -> BindingView {
        self@
    }
}

/// A name that stands for a contract with a trait; the trait by how it prints.
#[derive(Debug, PartialEq, Eq)]
pub struct CallableContract {
    pub name: String,
    pub contract_id: QualifiedContractIdentifier,
    pub trait_id: String,
}

/// The value that a [`CallableContract`] stands for.
pub struct CallableContractView {
    pub name: Seq<char>,
    pub contract_id: QualifiedContractIdentifierView,
    pub trait_id: Seq<char>,
}

impl View for CallableContract {
    type V = CallableContractView;

    open spec fn view(&self) -> CallableContractView {
        CallableContractView {
            name: self.name@,
            contract_id: self.contract_id@,
            trait_id: self.trait_id@,
        }
    }
}

impl DeepView for CallableContract {
    type V = CallableContractView;

    open spec fn deep_view(&self) -> CallableContractView {
        self@
    }
}

/// A data variable of a contract: its stored value, and its type as it prints.
#[derive(Debug, PartialEq, Eq)]
pub struct DataVariable {
    pub name: String,
    pub value: ClarityValue,
    pub value_type: String,
}

/// The value that a [`DataVariable`] stands for.
pub struct DataVariableView {
    pub name: Seq<char>,
    pub value: ClarityValueView,
    pub value_type: Seq<char>,
}

impl View for DataVariable {
    type V = DataVariableView;

    open spec fn view(&self) -> DataVariableView {
        DataVariableView {
            name: self.name@,
            value: self.value@,
            value_type: self.value_type@,
        }
    }
}

impl DeepView for DataVariable {
    type V = DataVariableView;

    open spec fn deep_view(&self) -> DataVariableView {
        self@
    }
}

/// A data map of a contract, with the types of its keys and values as they print.
#[derive(Debug, PartialEq, Eq)]
pub struct DataMap {
    pub name: String,
    pub key_type: String,
    pub value_type: String,
}

/// The value that a [`DataMap`] stands for.
pub struct DataMapView {
    pub name: Seq<char>,
    pub key_type: Seq<char>,
    pub value_type: Seq<char>,
}

impl View for DataMap {
    type V = DataMapView;

    open spec fn view(&self) -> DataMapView {
        DataMapView {
            name: self.name@,
            key_type: self.key_type@,
            value_type: self.value_type@,
        }
    }
}

impl DeepView for DataMap {
    type V = DataMapView;

    open spec fn deep_view(&self) -> DataMapView {
        self@
    }
}

/// What a contract defines.
#[derive(Debug, PartialEq, Eq)]
pub struct ContractContext {
    pub contract_identifier: QualifiedContractIdentifier,
    pub variables: Vec<Binding>,
    pub meta_data_var: Vec<DataVariable>,
    pub meta_data_map: Vec<DataMap>,
}

/// The value that a [`ContractContext`] stands for.
pub struct ContractContextView {
    pub contract_identifier: QualifiedContractIdentifierView,
    pub variables: Seq<BindingView>,
    pub meta_data_var: Seq<DataVariableView>,
    pub meta_data_map: Seq<DataMapView>,
}

impl View for ContractContext {
    type V = ContractContextView;

    open spec fn view(&self) -> ContractContextView {
        ContractContextView {
            contract_identifier: self.contract_identifier@,
            variables: self.variables.deep_view(),
            meta_data_var: self.meta_data_var.deep_view(),
            meta_data_map: self.meta_data_map.deep_view(),
        }
    }
}

impl DeepView for ContractContext {
    type V = ContractContextView;

    open spec fn deep_view(&self) -> ContractContextView {
        self@
    }
}

/// Where an expression is evaluated: the contract, and the call stack with the innermost call last.
#[derive(Debug, PartialEq, Eq)]
pub struct Environment {
    pub contract_context: ContractContext,
    pub call_stack: Vec<FunctionIdentifier>,
}

/// The value that a [`Environment`] stands for.
pub struct EnvironmentView {
    pub contract_context: ContractContextView,
    pub call_stack: Seq<FunctionIdentifierView>,
}

impl View for Environment {
    type V = EnvironmentView;

    open spec fn view(&self) -> EnvironmentView {
        EnvironmentView {
            contract_context: self.contract_context@,
            call_stack: self.call_stack.deep_view(),
        }
    }
}

impl DeepView for Environment {
    type V = EnvironmentView;

    open spec fn deep_view(&self) -> EnvironmentView {
        self@
    }
}

/// The names that are bound around an expression, and the context around those.
#[derive(Debug, PartialEq, Eq)]
pub struct LocalContext {
    pub depth: u16,
    pub variables: Vec<Binding>,
    pub callable_contracts: Vec<CallableContract>,
    pub parent: Option<Box<LocalContext>>,
}

/// One context without the contexts around it.
pub struct LocalContextView {
    pub depth: u16,
    pub variables: Seq<BindingView>,
    pub callable_contracts: Seq<CallableContractView>,
}

impl LocalContext {
    /// What this context itself binds.
    pub open spec fn bindings(self) -> LocalContextView {
        LocalContextView {
            depth: self.depth,
            variables: self.variables.deep_view(),
            callable_contracts: self.callable_contracts.deep_view(),
        }
    }

    /// This context and the contexts around it, from the inside out.
    pub open spec fn chain(self) -> Seq<LocalContextView>
        decreases self,
    {
        match self.parent {
            Some(parent) => seq![self.bindings()] + parent.chain(),
            None => seq![self.bindings()],
        }
    }
}

/// The name of the type of a value.
pub open spec fn value_type(value: ClarityValueView) -> Seq<char> {
    match value.kind {
        ValueKindView::Int => "int"@,
        ValueKindView::UInt => "uint"@,
        ValueKindView::Bool => "bool"@,
        ValueKindView::Tuple(signature) => signature,
        ValueKindView::Principal => "principal"@,
        ValueKindView::Optional(signature) => signature,
        ValueKindView::Response(signature) => signature,
        ValueKindView::Sequence(SequenceData::Buffer) => "buff"@,
        ValueKindView::Sequence(SequenceData::String) => "string"@,
        ValueKindView::Sequence(SequenceData::List) => "list"@,
    }
}

/// Returns the name of the type of `value`.
pub fn type_for_value(value: &ClarityValue) -> (name: String)
    ensures
        name@ == value_type(value@),
{
    match &value.kind {
        ValueKind::Int => "int".to_string(),
        ValueKind::UInt => "uint".to_string(),
        ValueKind::Bool => "bool".to_string(),
        ValueKind::Tuple(signature) => signature.clone(),
        ValueKind::Principal => "principal".to_string(),
        ValueKind::Optional(signature) => signature.clone(),
        ValueKind::Response(signature) => signature.clone(),
        ValueKind::Sequence(SequenceData::Buffer) => "buff".to_string(),
        ValueKind::Sequence(SequenceData::String) => "string".to_string(),
        ValueKind::Sequence(SequenceData::List) => "list".to_string(),
    }
}

} // verus!
