//! What holds of every generated binding.

use vstd::prelude::*;
use crate::binding::{
    binding_of, container_name, method_base, method_of, methods_of, operation_methods,
    variants_of, ContainerNamingModel, GenerationError, MethodModel, StyleModel,
};
use crate::ident::pascal_form;
use crate::ident_laws::lemma_form_characters;
use crate::naming::{is_identifier, law_guarded_snake_is_identifier, WordRule};
use crate::options::{CallingConvention, OptionsModel};
use crate::schema::{ApiModel, OperationModel};
use crate::signature::{law_signatures_in_declared_order, signature_of, signatures_of};
use crate::text::{is_digit, lemma_decimal_digits};

verus! {

/// Where the method of variant `j` of operation `i` stands among the
/// methods of a binding.
pub open spec fn slot(background: bool, i: int, j: int) -> int {
    if background {
        2 * i + j
    } else {
        i
    }
}

/// How many methods a binding has for `n` operations: one for each, or
/// two where the background variant is asked for.
pub open spec fn method_count(background: bool, n: int) -> int {
    if background {
        2 * n
    } else {
        n
    }
}

/// The methods of a list of operations are the methods of each operation,
/// one operation after the other; a refusal is that of the first operation
/// that is refused.
pub proof fn lemma_methods_layout(
    style: StyleModel,
    convention: CallingConvention,
    operations: Seq<OperationModel>,
)
    ensures
        match methods_of(style, convention, operations) {
            Ok(methods) => {
                &&& methods.len() == method_count(style.background, operations.len() as int)
                &&& forall|i: int|
                    0 <= i < operations.len() ==> (#[trigger] operation_methods(
                        style,
                        convention,
                        i,
                        operations[i],
                    )) is Ok
                &&& forall|i: int, j: int|
                    0 <= i < operations.len() && 0 <= j < variants_of(style.background).len()
                        ==> #[trigger] methods[slot(style.background, i, j)] == operation_methods(
                        style,
                        convention,
                        i,
                        operations[i],
                    )->Ok_0[j]
            },
            Err(e) => exists|i: int|
                {
                    &&& 0 <= i < operations.len()
                    &&& #[trigger] operation_methods(style, convention, i, operations[i]) == Err::<
                        Seq<MethodModel>,
                        GenerationError,
                    >(e)
                    &&& forall|h: int|
                        0 <= h < i ==> (#[trigger] operation_methods(
                            style,
                            convention,
                            h,
                            operations[h],
                        )) is Ok
                },
        },
    decreases operations.len(),
{
    if operations.len() > 0 {
        let front = operations.drop_last();
        let last = operations.len() - 1;
        lemma_methods_layout(style, convention, front);
        assert forall|i: int| 0 <= i < front.len() implies front[i] == operations[i] by {}
        assert(operations.last() == operations[last]);
    }
}

/// A generated binding holds, for every operation of the description and
/// every variant asked for, exactly one method, and no other: the methods
/// are as many as operations times variants, the method of variant `j` of
/// operation `i` stands at `slot(i, j)`, invokes that operation under the
/// calling convention of the options, is named after it, and forwards its
/// parameters in declared order.
pub proof fn law_one_method_per_operation_and_variant(
    options: OptionsModel,
    style: StyleModel,
    api: ApiModel,
)
    requires
        binding_of(options, style, api) is Ok,
    ensures
        ({
            let methods = binding_of(options, style, api)->Ok_0.methods;
            let variants = variants_of(style.background);
            &&& methods.len() == method_count(style.background, api.operations.len() as int)
            &&& forall|i: int, j: int|
                0 <= i < api.operations.len() && 0 <= j < variants.len() ==> {
                    let m = #[trigger] methods[slot(style.background, i, j)];
                    let operation = api.operations[i];
                    &&& method_base(style.words, operation) is Some
                    &&& signatures_of(style.words, operation.parameters) is Ok
                    &&& m == method_of(
                        method_base(style.words, operation)->0,
                        operation.name,
                        signatures_of(style.words, operation.parameters)->Ok_0,
                        options.calling_convention,
                        variants[j],
                        style.sync_suffix,
                    )
                }
        }),
{
    lemma_methods_layout(style, options.calling_convention, api.operations);
}

/// A binding is generated exactly where the container can be named and
/// every operation has its methods; else the refusal is that of the
/// container or, with the container named, of the first operation that is
/// refused.
pub proof fn law_generation_succeeds_or_names_the_first_refusal(
    options: OptionsModel,
    style: StyleModel,
    api: ApiModel,
)
    ensures
        binding_of(options, style, api) is Ok <==> {
            &&& container_name(style.container, api.namespace_hint) is Ok
            &&& forall|i: int|
                0 <= i < api.operations.len() ==> (#[trigger] operation_methods(
                    style,
                    options.calling_convention,
                    i,
                    api.operations[i],
                )) is Ok
        },
        binding_of(options, style, api) matches Err(e) ==> {
            ||| container_name(style.container, api.namespace_hint) == Err::<
                Seq<char>,
                GenerationError,
            >(e)
            ||| container_name(style.container, api.namespace_hint) is Ok && exists|i: int|
                {
                    &&& 0 <= i < api.operations.len()
                    &&& #[trigger] operation_methods(
                        style,
                        options.calling_convention,
                        i,
                        api.operations[i],
                    ) == Err::<Seq<MethodModel>, GenerationError>(e)
                    &&& forall|h: int|
                        0 <= h < i ==> (#[trigger] operation_methods(
                            style,
                            options.calling_convention,
                            h,
                            api.operations[h],
                        )) is Ok
                }
        },
{
    lemma_methods_layout(style, options.calling_convention, api.operations);
}

/// What of a namespace hint reaches the container name: the pascal form of
/// the hint, or nothing without a hint.
pub open spec fn hint_form(hint: Option<Seq<char>>) -> Seq<char> {
    match hint {
        Some(h) => pascal_form(h),
        None => Seq::empty(),
    }
}

/// The container name derived from a namespace hint depends on the hint
/// alone, and two hints give one name exactly where their pascal forms are
/// the same: the same hint always gives the same name, and hints with
/// different pascal forms never collide.
pub proof fn law_container_names_follow_hints(a: Option<Seq<char>>, b: Option<Seq<char>>)
    requires
        container_name(ContainerNamingModel::FromNamespaceHint, a) is Ok,
        container_name(ContainerNamingModel::FromNamespaceHint, b) is Ok,
    ensures
        a == b ==> container_name(ContainerNamingModel::FromNamespaceHint, a) == container_name(
            ContainerNamingModel::FromNamespaceHint,
            b,
        ),
        container_name(ContainerNamingModel::FromNamespaceHint, a) == container_name(
            ContainerNamingModel::FromNamespaceHint,
            b,
        ) <==> hint_form(a) == hint_form(b),
{
    let na = container_name(ContainerNamingModel::FromNamespaceHint, a)->Ok_0;
    let nb = container_name(ContainerNamingModel::FromNamespaceHint, b)->Ok_0;
    let api = "Api"@;
    if na == nb {
        assert(na.skip(api.len() as int) == hint_form(a));
        assert(nb.skip(api.len() as int) == hint_form(b));
    }
}

/// Two namespace hints whose pascal forms differ give two different
/// container names.
pub proof fn law_different_hints_give_different_containers(a: Seq<char>, b: Seq<char>)
    requires
        pascal_form(a) != pascal_form(b),
    ensures
        container_name(ContainerNamingModel::FromNamespaceHint, Some(a)) != container_name(
            ContainerNamingModel::FromNamespaceHint,
            Some(b),
        ),
{
    let na = container_name(ContainerNamingModel::FromNamespaceHint, Some(a));
    let nb = container_name(ContainerNamingModel::FromNamespaceHint, Some(b));
    if na is Ok && nb is Ok {
        law_container_names_follow_hints(Some(a), Some(b));
    } else if na is Err && nb is Err {
        assert(pascal_form(a) =~= pascal_form(b));
    }
}

/// Every name in a method is an identifier.
pub open spec fn method_is_well_named(m: MethodModel) -> bool {
    &&& is_identifier(m.name)
    &&& forall|p: int| 0 <= p < m.parameters.len() ==> is_identifier(#[trigger] m.parameters[p].ident)
}

/// Under the separator rule the methods of an operation are well named.
proof fn lemma_operation_is_well_named(
    style: StyleModel,
    convention: CallingConvention,
    index: int,
    operation: OperationModel,
)
    requires
        style.words == WordRule::Separators,
        operation_methods(style, convention, index, operation) is Ok,
    ensures
        forall|m: int|
            0 <= m < operation_methods(style, convention, index, operation)->Ok_0.len()
                ==> method_is_well_named(
                #[trigger] operation_methods(style, convention, index, operation)->Ok_0[m],
            ),
{
    reveal_strlit("_sync");
    reveal_strlit("_background");
    reveal_strlit("arg");
    let sigs = signatures_of(style.words, operation.parameters)->Ok_0;
    law_guarded_snake_is_identifier(operation.name);
    law_signatures_in_declared_order(style.words, operation.parameters);
    assert forall|p: int| 0 <= p < sigs.len() implies is_identifier(#[trigger] sigs[p].ident) by {
        let parameter = operation.parameters[p];
        match parameter.label {
            Some(l) => {
                law_guarded_snake_is_identifier(l);
            },
            None => {
                lemma_decimal_digits(p as nat);
            },
        }
    }
}

/// Under the separator rule every name that generation emits is an
/// identifier: it is not empty, does not begin with a digit, and holds
/// ASCII letters, digits and underscores only.
pub proof fn law_generated_names_are_identifiers(
    options: OptionsModel,
    style: StyleModel,
    api: ApiModel,
)
    requires
        style.words == WordRule::Separators,
        binding_of(options, style, api) is Ok,
    ensures
        is_identifier(binding_of(options, style, api)->Ok_0.container),
        forall|m: int|
            0 <= m < binding_of(options, style, api)->Ok_0.methods.len()
                ==> method_is_well_named(#[trigger] binding_of(options, style, api)->Ok_0.methods[m]),
{
    reveal_strlit("Api");
    match style.container {
        ContainerNamingModel::Explicit(name) => {},
        ContainerNamingModel::FromNamespaceHint => {
            match api.namespace_hint {
                Some(h) => {
                    lemma_form_characters(h);
                },
                None => {},
            }
        },
    }
    lemma_methods_are_well_named(style, options.calling_convention, api.operations);
}

/// Under the separator rule all methods of a list of operations are well
/// named.
proof fn lemma_methods_are_well_named(
    style: StyleModel,
    convention: CallingConvention,
    operations: Seq<OperationModel>,
)
    requires
        style.words == WordRule::Separators,
        methods_of(style, convention, operations) is Ok,
    ensures
        forall|m: int|
            0 <= m < methods_of(style, convention, operations)->Ok_0.len()
                ==> method_is_well_named(
                #[trigger] methods_of(style, convention, operations)->Ok_0[m],
            ),
    decreases operations.len(),
{
    if operations.len() > 0 {
        lemma_methods_are_well_named(style, convention, operations.drop_last());
        lemma_operation_is_well_named(style, convention, operations.len() - 1, operations.last());
    }
}

/// Every generated binding is well formed, under either word rule.
pub proof fn law_generated_bindings_are_well_formed(
    options: OptionsModel,
    style: StyleModel,
    api: ApiModel,
)
    requires
        binding_of(options, style, api) is Ok,
    ensures
        binding_of(options, style, api)->Ok_0.well_formed(),
{
    reveal_strlit("Api");
    let binding = binding_of(options, style, api)->Ok_0;
    lemma_methods_are_well_formed(style, options.calling_convention, api.operations);
    assert(binding.container.len() > 0 && !is_digit(binding.container[0])) by {
        match style.container {
            ContainerNamingModel::Explicit(name) => {},
            ContainerNamingModel::FromNamespaceHint => {
                assert(binding.container[0] == "Api"@[0]);
            },
        }
    }
}

/// What `well_formed` asks of one method under a calling convention.
spec fn method_is_well_formed(method: MethodModel, convention: CallingConvention) -> bool {
    &&& method.convention == convention
    &&& method.name.len() > 0
    &&& !is_digit(method.name[0])
    &&& forall|p: int|
        0 <= p < method.parameters.len() ==> {
            let parameter = #[trigger] method.parameters[p];
            &&& parameter.consistent()
            &&& parameter.ident.len() > 0
            &&& !is_digit(parameter.ident[0])
        }
}

/// The methods of a list of operations are well formed.
proof fn lemma_methods_are_well_formed(
    style: StyleModel,
    convention: CallingConvention,
    operations: Seq<OperationModel>,
)
    requires
        methods_of(style, convention, operations) is Ok,
    ensures
        forall|m: int|
            0 <= m < methods_of(style, convention, operations)->Ok_0.len()
                ==> method_is_well_formed(
                #[trigger] methods_of(style, convention, operations)->Ok_0[m],
                convention,
            ),
    decreases operations.len(),
{
    if operations.len() > 0 {
        let last = operations.last();
        let front = methods_of(style, convention, operations.drop_last())->Ok_0;
        let more = operation_methods(style, convention, operations.len() - 1, last)->Ok_0;
        lemma_methods_are_well_formed(style, convention, operations.drop_last());
        law_signatures_in_declared_order(style.words, last.parameters);
        reveal_strlit("arg");
        let sigs = signatures_of(style.words, last.parameters)->Ok_0;
        assert forall|p: int| 0 <= p < sigs.len() implies {
            &&& (#[trigger] sigs[p]).consistent()
            &&& sigs[p].ident.len() > 0
            &&& !is_digit(sigs[p].ident[0])
        } by {
            assert(signature_of(style.words, p as nat, last.parameters[p]) == Some(sigs[p]));
            if last.parameters[p].label is None {
                assert(sigs[p].ident[0] == "arg"@[0]);
            }
        }
        let all = methods_of(style, convention, operations)->Ok_0;
        assert forall|m: int| 0 <= m < all.len() implies method_is_well_formed(
            #[trigger] all[m],
            convention,
        ) by {
            if m < front.len() {
                assert(all[m] == front[m]);
            } else {
                let method = more[m - front.len()];
                let base = method_base(style.words, last)->0;
                assert(all[m] == method);
                assert(method.name[0] == base[0]);
            }
        }
    }
}

} // verus!
