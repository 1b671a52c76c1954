//! The description of an endpoint that generation consumes: its operations,
//! their parameters, and the namespace hint.

use vstd::prelude::*;

verus! {

/// One parameter of a remote operation.
#[derive(Clone, Debug, PartialEq, Eq)]
pub struct ParameterDescriptor {
    /// The human name of the parameter, if it has one.
    pub label: Option<String>,
    /// The kind of value the remote side expects.
    pub type_tag: String,
    /// The default value, as the schema writes it.
    pub default_value: Option<String>,
    /// An example value, as the schema writes it.
    pub example: Option<String>,
}

/// One remote-callable operation.
#[derive(Clone, Debug, PartialEq, Eq)]
pub struct OperationDescriptor {
    /// The name under which the remote side knows the operation.
    pub name: String,
    /// The parameters, in declared order.
    pub parameters: Vec<ParameterDescriptor>,
}

/// What the schema of one endpoint says.
#[derive(Clone, Debug, PartialEq, Eq)]
pub struct ApiDescription {
    /// The operations, in the order in which they are to be emitted.
    pub operations: Vec<OperationDescriptor>,
    /// The namespace that owns the endpoint, where the schema names one.
    pub namespace_hint: Option<String>,
}

/// A parameter descriptor as a mathematical value.
pub struct ParameterModel {
    pub label: Option<Seq<char>>,
    pub type_tag: Seq<char>,
    pub default_value: Option<Seq<char>>,
    pub example: Option<Seq<char>>,
}

/// An operation descriptor as a mathematical value.
pub struct OperationModel {
    pub name: Seq<char>,
    pub parameters: Seq<ParameterModel>,
}

/// An endpoint description as a mathematical value.
pub struct ApiModel {
    pub operations: Seq<OperationModel>,
    pub namespace_hint: Option<Seq<char>>,
}

impl View for ParameterDescriptor {
    type V = ParameterModel;

    open spec fn view(&self) -> ParameterModel {
        ParameterModel {
            label: self.label.deep_view(),
            type_tag: self.type_tag@,
            default_value: self.default_value.deep_view(),
            example: self.example.deep_view(),
        }
    }
}

impl DeepView for ParameterDescriptor {
    type V = ParameterModel;

    open spec fn deep_view(&self) -> ParameterModel {
        self@
    }
}

impl View for OperationDescriptor {
    type V = OperationModel;

    open spec fn view(&self) -> OperationModel {
        OperationModel { name: self.name@, parameters: self.parameters.deep_view() }
    }
}

impl DeepView for OperationDescriptor {
    type V = OperationModel;

    open spec fn deep_view(&self) -> OperationModel {
        self@
    }
}

impl View for ApiDescription {
    type V = ApiModel;

    open spec fn view(&self) -> ApiModel {
        ApiModel {
            operations: self.operations.deep_view(),
            namespace_hint: self.namespace_hint.deep_view(),
        }
    }
}

/// The type tag that marks a parameter as a path to a file.
pub open spec fn file_path_tag() -> Seq<char> {
    "filepath"@
}

impl ParameterDescriptor {
    /// Whether the parameter's type tag is the file-path tag.
    pub fn is_file_path(&self) -> (r: bool)
        ensures
            r == (self@.type_tag == file_path_tag()),
    {
        let tag = String::from_str("filepath");
        self.type_tag == tag
    }
}

} // verus!
