//! The generated binding: the container, its constructor and its methods,
//! and the routine that derives them from an endpoint description.

use vstd::prelude::*;
use crate::binding_laws::law_generated_bindings_are_well_formed;
use crate::ident::{pascal_form, to_camel_case};
use crate::naming::{
    check_identifier, guard_identifier, guarded, is_identifier, raw_snake, snake_name, WordRule,
};
use crate::options::{CallingConvention, GenerationOptions, OptionsModel};
use crate::schema::{ApiDescription, ApiModel, OperationDescriptor, OperationModel};
use crate::signature::{signatures_of, synthesize_all, ParameterSignature, SignatureModel};
use crate::text::{decimal, is_digit, push_decimal};

verus! {

/// What a generated method waits for.
#[derive(Clone, Copy, Debug, PartialEq, Eq, Structural)]
pub enum CallVariant {
    /// The full result of the remote operation.
    Immediate,
    /// Only the acceptance of the remote operation: the method returns a
    /// handle from which progress is read.
    Background,
}

/// How much a failed construction tells.
#[derive(Clone, Copy, Debug, PartialEq, Eq, Structural)]
pub enum FailureDetail {
    /// Nothing beyond the failure itself.
    Opaque,
    /// The error of the connection that could not be opened.
    Underlying,
}

/// Where the name of the container comes from.
#[derive(Clone, Debug, PartialEq, Eq)]
pub enum ContainerNaming {
    /// From the namespace hint of the schema.
    FromNamespaceHint,
    /// The given name, which must be an identifier.
    Explicit(String),
}

/// A container naming as a mathematical value.
pub enum ContainerNamingModel {
    FromNamespaceHint,
    Explicit(Seq<char>),
}

impl View for ContainerNaming {
    type V = ContainerNamingModel;

    open spec fn view(&self) -> ContainerNamingModel {
        match self {
            ContainerNaming::FromNamespaceHint => ContainerNamingModel::FromNamespaceHint,
            ContainerNaming::Explicit(name) => ContainerNamingModel::Explicit(name@),
        }
    }
}

/// How a binding is named and which methods it offers.
#[derive(Clone, Debug, PartialEq, Eq)]
pub struct BindingStyle {
    pub container: ContainerNaming,
    /// How names are cut into words.
    pub words: WordRule,
    /// Whether each operation also gets its background method.
    pub background: bool,
    /// Whether methods of the blocking convention carry `_sync` in their
    /// names, so that both conventions can share one container.
    pub sync_suffix: bool,
    pub failure: FailureDetail,
}

/// A binding style as a mathematical value.
pub struct StyleModel {
    pub container: ContainerNamingModel,
    pub words: WordRule,
    pub background: bool,
    pub sync_suffix: bool,
    pub failure: FailureDetail,
}

impl View for BindingStyle {
    type V = StyleModel;

    open spec fn view(&self) -> StyleModel {
        StyleModel {
            container: self.container@,
            words: self.words,
            background: self.background,
            sync_suffix: self.sync_suffix,
            failure: self.failure,
        }
    }
}

/// One method of the generated container.
#[derive(Clone, Debug, PartialEq, Eq)]
pub struct GeneratedMethod {
    /// The name of the method.
    pub name: String,
    /// The remote operation that the method invokes, under its own name.
    pub operation: String,
    pub convention: CallingConvention,
    pub variant: CallVariant,
    /// The parameters, which the method forwards in this order.
    pub parameters: Vec<ParameterSignature>,
}

/// A generated method as a mathematical value.
pub struct MethodModel {
    pub name: Seq<char>,
    pub operation: Seq<char>,
    pub convention: CallingConvention,
    pub variant: CallVariant,
    pub parameters: Seq<SignatureModel>,
}

impl View for GeneratedMethod {
    type V = MethodModel;

    open spec fn view(&self) -> MethodModel {
        MethodModel {
            name: self.name@,
            operation: self.operation@,
            convention: self.convention,
            variant: self.variant,
            parameters: self.parameters.deep_view(),
        }
    }
}

impl DeepView for GeneratedMethod {
    type V = MethodModel;

    open spec fn deep_view(&self) -> MethodModel {
        self@
    }
}

/// The operation that opens the connection of a generated container.
#[derive(Clone, Debug, PartialEq, Eq)]
pub struct Constructor {
    pub name: String,
    pub convention: CallingConvention,
    /// The endpoint that the connection is opened to.
    pub endpoint: String,
    pub credential_token: Option<String>,
    pub basic_auth: Option<(String, String)>,
    pub failure: FailureDetail,
}

/// A constructor as a mathematical value.
pub struct ConstructorModel {
    pub name: Seq<char>,
    pub convention: CallingConvention,
    pub endpoint: Seq<char>,
    pub credential_token: Option<Seq<char>>,
    pub basic_auth: Option<(Seq<char>, Seq<char>)>,
    pub failure: FailureDetail,
}

impl View for Constructor {
    type V = ConstructorModel;

    open spec fn view(&self) -> ConstructorModel {
        ConstructorModel {
            name: self.name@,
            convention: self.convention,
            endpoint: self.endpoint@,
            credential_token: self.credential_token.deep_view(),
            basic_auth: self.basic_auth.deep_view(),
            failure: self.failure,
        }
    }
}

/// What generation emits for one endpoint.
#[derive(Clone, Debug, PartialEq, Eq)]
pub struct GeneratedBinding {
    /// The name of the container type.
    pub container: String,
    pub constructor: Constructor,
    /// The methods, operation by operation in the order of the schema.
    pub methods: Vec<GeneratedMethod>,
}

/// A generated binding as a mathematical value.
pub struct BindingModel {
    pub container: Seq<char>,
    pub constructor: ConstructorModel,
    pub methods: Seq<MethodModel>,
}

impl BindingModel {
    /// A binding is well formed where its parts agree: the constructor is
    /// named after its calling convention, every method is of that calling
    /// convention, no name is empty or begins with a digit, and every
    /// parameter is wrapped as what it accepts. Every generated binding is.
    pub open spec fn well_formed(self) -> bool {
        &&& self.container.len() > 0
        &&& !is_digit(self.container[0])
        &&& self.constructor.name == constructor_name(self.constructor.convention)
        &&& forall|m: int|
            0 <= m < self.methods.len() ==> {
                let method = #[trigger] self.methods[m];
                &&& method.convention == self.constructor.convention
                &&& method.name.len() > 0
                &&& !is_digit(method.name[0])
                &&& forall|p: int|
                    0 <= p < method.parameters.len() ==> {
                        let parameter = #[trigger] method.parameters[p];
                        &&& parameter.consistent()
                        &&& parameter.ident.len() > 0
                        &&& !is_digit(parameter.ident[0])
                    }
            }
    }
}

impl View for GeneratedBinding {
    type V = BindingModel;

    open spec fn view(&self) -> BindingModel {
        BindingModel {
            container: self.container@,
            constructor: self.constructor@,
            methods: self.methods.deep_view(),
        }
    }
}

/// Why no binding is generated.
#[derive(Clone, Copy, Debug, PartialEq, Eq, Structural)]
pub enum GenerationError {
    /// The namespace hint holds no letter and no digit.
    EmptyNamespaceHint,
    /// The explicit container name is not an identifier.
    InvalidContainerName,
    /// The name of the operation at this position has no word to name a
    /// method with.
    EmptyOperationName { operation: usize },
    /// The label of this parameter of this operation has no word to name
    /// it with.
    EmptyParameterName { operation: usize, parameter: usize },
}

/// The text with which a refusal is reported. Positions count from zero.
pub open spec fn refusal_text(e: GenerationError) -> Seq<char> {
    match e {
        GenerationError::EmptyNamespaceHint => "the namespace hint names no container"@,
        GenerationError::InvalidContainerName => "the container name is not an identifier"@,
        GenerationError::EmptyOperationName { operation } => "no method name for operation "@
            + decimal(operation as nat),
        GenerationError::EmptyParameterName { operation, parameter } => "no name for parameter "@
            + decimal(parameter as nat) + " of operation "@ + decimal(operation as nat),
    }
}

impl GenerationError {
    /// The text with which the refusal is reported.
    pub fn message(&self) -> (text: String)
        ensures
            text@ == refusal_text(*self),
    {
        match self {
            GenerationError::EmptyNamespaceHint => String::from_str(
                "the namespace hint names no container",
            ),
            GenerationError::InvalidContainerName => String::from_str(
                "the container name is not an identifier",
            ),
            GenerationError::EmptyOperationName { operation } => {
                let mut text = String::from_str("no method name for operation ");
                push_decimal(&mut text, *operation);
                text
            },
            GenerationError::EmptyParameterName { operation, parameter } => {
                let mut text = String::from_str("no name for parameter ");
                push_decimal(&mut text, *parameter);
                text.append(" of operation ");
                push_decimal(&mut text, *operation);
                text
            },
        }
    }
}

/// The name of the container: the explicit name where one is given and is
/// an identifier; else `Api` and the pascal form of the namespace hint, or
/// `Api` alone without a hint. A hint without any word is refused.
pub open spec fn container_name(naming: ContainerNamingModel, hint: Option<Seq<char>>) -> Result<
    Seq<char>,
    GenerationError,
> {
    match naming {
        ContainerNamingModel::Explicit(name) => if is_identifier(name) {
            Ok(name)
        } else {
            Err(GenerationError::InvalidContainerName)
        },
        ContainerNamingModel::FromNamespaceHint => match hint {
            None => Ok("Api"@),
            Some(h) => if pascal_form(h).len() == 0 {
                Err(GenerationError::EmptyNamespaceHint)
            } else {
                Ok("Api"@ + pascal_form(h))
            },
        },
    }
}

/// The name of the constructor under a calling convention.
pub open spec fn constructor_name(convention: CallingConvention) -> Seq<char> {
    match convention {
        CallingConvention::Sync => "new_sync"@,
        CallingConvention::Async => "new"@,
    }
}

/// The constructor for the given options.
pub open spec fn constructor_of(options: OptionsModel, failure: FailureDetail) -> ConstructorModel {
    ConstructorModel {
        name: constructor_name(options.calling_convention),
        convention: options.calling_convention,
        endpoint: options.endpoint,
        credential_token: options.credential_token,
        basic_auth: options.basic_auth,
        failure,
    }
}

/// What a method name carries behind the name of its operation: `_sync`
/// for a blocking method where that is asked for, then `_background` for a
/// background method.
pub open spec fn method_suffix(
    convention: CallingConvention,
    variant: CallVariant,
    sync_suffix: bool,
) -> Seq<char> {
    let marked = if sync_suffix && convention == CallingConvention::Sync {
        "_sync"@
    } else {
        Seq::empty()
    };
    match variant {
        CallVariant::Immediate => marked,
        CallVariant::Background => marked + "_background"@,
    }
}

/// The variants that a style asks for, in the order of emission.
pub open spec fn variants_of(background: bool) -> Seq<CallVariant> {
    if background {
        seq![CallVariant::Immediate, CallVariant::Background]
    } else {
        seq![CallVariant::Immediate]
    }
}

/// The method of one variant for an operation whose names are settled.
pub open spec fn method_of(
    base: Seq<char>,
    operation: Seq<char>,
    parameters: Seq<SignatureModel>,
    convention: CallingConvention,
    variant: CallVariant,
    sync_suffix: bool,
) -> MethodModel {
    MethodModel {
        name: base + method_suffix(convention, variant, sync_suffix),
        operation,
        convention,
        variant,
        parameters,
    }
}

/// The name that the methods of an operation are built on: the guarded
/// snake form of the operation's name.
pub open spec fn method_base(words: WordRule, operation: OperationModel) -> Option<Seq<char>> {
    guarded(raw_snake(words, operation.name))
}

/// The methods of the operation at a position: one for each variant asked
/// for, each forwarding every parameter in declared order. The operation
/// is refused where its name or the label of one of its parameters has no
/// word; the name is looked at first.
pub open spec fn operation_methods(
    style: StyleModel,
    convention: CallingConvention,
    index: int,
    operation: OperationModel,
) -> Result<Seq<MethodModel>, GenerationError> {
    match method_base(style.words, operation) {
        None => Err(GenerationError::EmptyOperationName { operation: index as usize }),
        Some(base) => match signatures_of(style.words, operation.parameters) {
            Err(p) => Err(
                GenerationError::EmptyParameterName {
                    operation: index as usize,
                    parameter: p as usize,
                },
            ),
            Ok(sigs) => {
                let variants = variants_of(style.background);
                Ok(
                    Seq::new(
                        variants.len(),
                        |j: int|
                            method_of(
                                base,
                                operation.name,
                                sigs,
                                convention,
                                variants[j],
                                style.sync_suffix,
                            ),
                    ),
                )
            },
        },
    }
}

/// The methods of all operations, in the order of the schema, or the
/// refusal of the first operation that is refused.
pub open spec fn methods_of(
    style: StyleModel,
    convention: CallingConvention,
    operations: Seq<OperationModel>,
) -> Result<Seq<MethodModel>, GenerationError>
    decreases operations.len(),
{
    if operations.len() == 0 {
        Ok(Seq::empty())
    } else {
        match methods_of(style, convention, operations.drop_last()) {
            Err(e) => Err(e),
            Ok(front) => match operation_methods(
                style,
                convention,
                operations.len() - 1,
                operations.last(),
            ) {
                Err(e) => Err(e),
                Ok(more) => Ok(front + more),
            },
        }
    }
}

/// The binding for an endpoint description. The container is named first,
/// then the operations are taken in order; the first refusal is the
/// result, and then nothing is emitted.
pub open spec fn binding_of(options: OptionsModel, style: StyleModel, api: ApiModel) -> Result<
    BindingModel,
    GenerationError,
> {
    match container_name(style.container, api.namespace_hint) {
        Err(e) => Err(e),
        Ok(container) => match methods_of(style, options.calling_convention, api.operations) {
            Err(e) => Err(e),
            Ok(methods) => Ok(
                BindingModel {
                    container,
                    constructor: constructor_of(options, style.failure),
                    methods,
                },
            ),
        },
    }
}

fn copy_text(text: &Option<String>) -> (r: Option<String>)
    ensures
        r.deep_view() == text.deep_view(),
{
    match text {
        Some(t) => Some(t.clone()),
        None => None,
    }
}

fn copy_pair(pair: &Option<(String, String)>) -> (r: Option<(String, String)>)
    ensures
        r.deep_view() == pair.deep_view(),
{
    match pair {
        Some((a, b)) => Some((a.clone(), b.clone())),
        None => None,
    }
}

fn copy_signatures(signatures: &Vec<ParameterSignature>) -> (r: Vec<ParameterSignature>)
    ensures
        r.deep_view() == signatures.deep_view(),
{
    let mut out: Vec<ParameterSignature> = Vec::new();
    for i in 0..signatures.len()
        invariant
            out.len() == i,
            forall|j: int| 0 <= j < i ==> out[j]@ == signatures[j]@,
    {
        let s = &signatures[i];
        out.push(
            ParameterSignature { ident: s.ident.clone(), accepts: s.accepts, wrapper: s.wrapper },
        );
    }
    out
}

/// Names the container.
pub fn name_container(naming: &ContainerNaming, hint: &Option<String>) -> (r: Result<
    String,
    GenerationError,
>)
    ensures
        match container_name(naming@, hint.deep_view()) {
            Ok(name) => r matches Ok(n) && n@ == name,
            Err(e) => r matches Err(x) && x == e,
        },
{
    match naming {
        ContainerNaming::Explicit(name) => {
            if check_identifier(name.as_str()) {
                Ok(name.clone())
            } else {
                Err(GenerationError::InvalidContainerName)
            }
        },
        ContainerNaming::FromNamespaceHint => {
            let mut out = String::from_str("Api");
            match hint {
                None => Ok(out),
                Some(h) => {
                    let pascal = to_camel_case(h.as_str());
                    if pascal.as_str().is_empty() {
                        Err(GenerationError::EmptyNamespaceHint)
                    } else {
                        out.append(pascal.as_str());
                        Ok(out)
                    }
                },
            }
        },
    }
}

/// Builds the constructor for the given options.
pub fn build_constructor(options: &GenerationOptions, failure: FailureDetail) -> (r: Constructor)
    ensures
        r@ == constructor_of(options@, failure),
{
    let name = match options.calling_convention {
        CallingConvention::Sync => String::from_str("new_sync"),
        CallingConvention::Async => String::from_str("new"),
    };
    Constructor {
        name,
        convention: options.calling_convention,
        endpoint: options.endpoint.clone(),
        credential_token: copy_text(&options.credential_token),
        basic_auth: copy_pair(&options.basic_auth),
        failure,
    }
}

/// Names the method of one variant on the name of its operation.
pub fn name_method(
    base: &String,
    convention: CallingConvention,
    variant: CallVariant,
    sync_suffix: bool,
) -> (r: String)
    ensures
        r@ == base@ + method_suffix(convention, variant, sync_suffix),
{
    let mut name = base.clone();
    if sync_suffix {
        match convention {
            CallingConvention::Sync => {
                name.append("_sync");
            },
            CallingConvention::Async => {},
        }
    }
    match variant {
        CallVariant::Immediate => {},
        CallVariant::Background => {
            name.append("_background");
        },
    }
    name
}

/// Emits the methods of the operation at a position.
pub fn emit_methods(
    style: &BindingStyle,
    convention: CallingConvention,
    index: usize,
    operation: &OperationDescriptor,
) -> (r: Result<Vec<GeneratedMethod>, GenerationError>)
    ensures
        match operation_methods(style@, convention, index as int, operation@) {
            Ok(methods) => r matches Ok(v) && v.deep_view() == methods,
            Err(e) => r matches Err(x) && x == e,
        },
{
    let base = match guard_identifier(snake_name(style.words, operation.name.as_str())) {
        None => {
            return Err(GenerationError::EmptyOperationName { operation: index });
        },
        Some(b) => b,
    };
    let signatures = match synthesize_all(style.words, &operation.parameters) {
        Err(p) => {
            return Err(GenerationError::EmptyParameterName { operation: index, parameter: p });
        },
        Ok(s) => s,
    };
    let mut out: Vec<GeneratedMethod> = Vec::new();
    if style.background {
        out.push(
            GeneratedMethod {
                name: name_method(&base, convention, CallVariant::Immediate, style.sync_suffix),
                operation: operation.name.clone(),
                convention,
                variant: CallVariant::Immediate,
                parameters: copy_signatures(&signatures),
            },
        );
        out.push(
            GeneratedMethod {
                name: name_method(&base, convention, CallVariant::Background, style.sync_suffix),
                operation: operation.name.clone(),
                convention,
                variant: CallVariant::Background,
                parameters: signatures,
            },
        );
    } else {
        out.push(
            GeneratedMethod {
                name: name_method(&base, convention, CallVariant::Immediate, style.sync_suffix),
                operation: operation.name.clone(),
                convention,
                variant: CallVariant::Immediate,
                parameters: signatures,
            },
        );
    }
    Ok(out)
}

/// A refusal within a prefix of the operations is the refusal of them all.
pub proof fn lemma_methods_prefix(
    style: StyleModel,
    convention: CallingConvention,
    operations: Seq<OperationModel>,
    n: int,
)
    requires
        0 <= n <= operations.len(),
    ensures
        methods_of(style, convention, operations.take(n)) matches Err(e) ==> methods_of(
            style,
            convention,
            operations,
        ) == Err::<Seq<MethodModel>, GenerationError>(e),
    decreases operations.len() - n,
{
    if n < operations.len() {
        let next = operations.take(n + 1);
        assert(next.drop_last() == operations.take(n));
        lemma_methods_prefix(style, convention, operations, n + 1);
    } else {
        assert(operations.take(n) == operations);
    }
}

/// Generates the binding for one endpoint: the container, its constructor
/// under the calling convention of the options, and for every operation of
/// the description one method per variant that the style asks for. Where a
/// name cannot be made, nothing is generated and the first such name is
/// reported.
pub fn gradio_api(options: &GenerationOptions, style: &BindingStyle, api: &ApiDescription) -> (r:
    Result<GeneratedBinding, GenerationError>)
    ensures
        match binding_of(options@, style@, api@) {
            Ok(binding) => r matches Ok(b) && b@ == binding,
            Err(e) => r matches Err(x) && x == e,
        },
        r matches Ok(b) ==> b@.well_formed(),
{
    proof {
        if binding_of(options@, style@, api@) is Ok {
            law_generated_bindings_are_well_formed(options@, style@, api@);
        }
    }
    let container = match name_container(&style.container, &api.namespace_hint) {
        Err(e) => {
            return Err(e);
        },
        Ok(name) => name,
    };
    let convention = options.calling_convention;
    let mut methods: Vec<GeneratedMethod> = Vec::new();
    let ghost all = api.operations.deep_view();
    assert(methods.deep_view() == Seq::<MethodModel>::empty());
    for i in 0..api.operations.len()
        invariant
            all == api.operations.deep_view(),
            convention == options.calling_convention,
            container_name(style@.container, api@.namespace_hint) is Ok,
            methods_of(style@, convention, all.take(i as int)) == Ok::<
                Seq<MethodModel>,
                GenerationError,
            >(methods.deep_view()),
    {
        proof {
            let next = all.take(i + 1);
            assert(next.drop_last() == all.take(i as int));
            lemma_methods_prefix(style@, convention, all, i + 1);
        }
        match emit_methods(style, convention, i, &api.operations[i]) {
            Err(e) => {
                return Err(e);
            },
            Ok(mut more) => {
                let ghost before = methods.deep_view();
                let ghost added = more.deep_view();
                methods.append(&mut more);
                assert(methods.deep_view() =~= before + added);
            },
        }
    }
    assert(all.take(api.operations.len() as int) == all);
    Ok(
        GeneratedBinding {
            container,
            constructor: build_constructor(options, style.failure),
            methods,
        },
    )
}

/// Why an endpoint has no binding.
#[derive(Clone, Debug, PartialEq, Eq)]
pub enum BindingFailure<E> {
    /// The description of the endpoint could not be fetched.
    Fetch(E),
    /// The description was fetched and a name in it was refused.
    Generation(GenerationError),
}

/// Generates the binding for one endpoint from what the fetch of its
/// description came to. A failed fetch gives no binding, not even a part
/// of one, and keeps its error; a fetched description gives what
/// `gradio_api` gives.
pub fn bind_endpoint<E>(
    options: &GenerationOptions,
    style: &BindingStyle,
    fetched: Result<ApiDescription, E>,
) -> (r: Result<GeneratedBinding, BindingFailure<E>>)
    ensures
        match fetched {
            Err(error) => r matches Err(BindingFailure::Fetch(e)) && e == error,
            Ok(api) => match binding_of(options@, style@, api@) {
                Ok(binding) => r matches Ok(b) && b@ == binding,
                Err(refusal) => r matches Err(BindingFailure::Generation(e)) && e == refusal,
            },
        },
{
    match fetched {
        Err(error) => Err(BindingFailure::Fetch(error)),
        Ok(api) => match gradio_api(options, style, &api) {
            Ok(binding) => Ok(binding),
            Err(refusal) => Err(BindingFailure::Generation(refusal)),
        },
    }
}

} // verus!
