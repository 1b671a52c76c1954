//! Signature synthesis: the name, the accepted type and the call-site
//! wrapper of each generated parameter.

use vstd::prelude::*;
use crate::naming::{guard_identifier, guarded, raw_snake, snake_name, WordRule};
use crate::schema::{file_path_tag, ParameterDescriptor, ParameterModel};
use crate::text::{decimal, lemma_decimal_injective, push_decimal};

verus! {

/// What a generated parameter accepts.
#[derive(Clone, Copy, Debug, PartialEq, Eq, Structural)]
pub enum AcceptedType {
    /// Anything convertible to a filesystem path.
    PathLike,
    /// Anything serialisable to the remote value encoding.
    Serializable,
}

/// How the call site wraps the argument.
#[derive(Clone, Copy, Debug, PartialEq, Eq, Structural)]
pub enum InputConstructor {
    /// The input is the file at the given path.
    FromFile,
    /// The input is the given value.
    FromValue,
}

/// One parameter of a generated method.
#[derive(Clone, Debug, PartialEq, Eq)]
pub struct ParameterSignature {
    pub ident: String,
    pub accepts: AcceptedType,
    pub wrapper: InputConstructor,
}

/// A parameter signature as a mathematical value.
pub struct SignatureModel {
    pub ident: Seq<char>,
    pub accepts: AcceptedType,
    pub wrapper: InputConstructor,
}

impl SignatureModel {
    /// A signature is consistent where what it accepts and how it wraps
    /// go together: a path is wrapped as a file, a value as a value. Every
    /// synthesised signature is.
    pub open spec fn consistent(self) -> bool {
        self.accepts == AcceptedType::PathLike <==> self.wrapper == InputConstructor::FromFile
    }
}

impl View for ParameterSignature {
    type V = SignatureModel;

    open spec fn view(&self) -> SignatureModel {
        SignatureModel { ident: self.ident@, accepts: self.accepts, wrapper: self.wrapper }
    }
}

impl DeepView for ParameterSignature {
    type V = SignatureModel;

    open spec fn deep_view(&self) -> SignatureModel {
        self@
    }
}

/// The accepted type for a type tag: path-like for the file-path tag,
/// serialisable for every other.
pub open spec fn accepted_for(type_tag: Seq<char>) -> AcceptedType {
    if type_tag == file_path_tag() {
        AcceptedType::PathLike
    } else {
        AcceptedType::Serializable
    }
}

/// The call-site wrapper for a type tag: from-file for the file-path tag,
/// from-value for every other.
pub open spec fn wrapper_for(type_tag: Seq<char>) -> InputConstructor {
    if type_tag == file_path_tag() {
        InputConstructor::FromFile
    } else {
        InputConstructor::FromValue
    }
}

/// The name of the parameter at a position: the guarded snake form of its
/// label or, without a label, `arg` and the position. A label without any
/// word gives no name.
pub open spec fn parameter_ident(rule: WordRule, index: nat, label: Option<Seq<char>>) -> Option<
    Seq<char>,
> {
    match label {
        Some(l) => guarded(raw_snake(rule, l)),
        None => Some("arg"@ + decimal(index)),
    }
}

/// The signature of the parameter at a position, where it has a name.
pub open spec fn signature_of(rule: WordRule, index: nat, parameter: ParameterModel) -> Option<
    SignatureModel,
> {
    match parameter_ident(rule, index, parameter.label) {
        Some(ident) => Some(
            SignatureModel {
                ident,
                accepts: accepted_for(parameter.type_tag),
                wrapper: wrapper_for(parameter.type_tag),
            },
        ),
        None => None,
    }
}

/// The signatures of a parameter list in declared order, or the position
/// of the first parameter that has no name.
pub open spec fn signatures_of(rule: WordRule, parameters: Seq<ParameterModel>) -> Result<
    Seq<SignatureModel>,
    nat,
>
    decreases parameters.len(),
{
    if parameters.len() == 0 {
        Ok(Seq::empty())
    } else {
        let at = (parameters.len() - 1) as nat;
        match signatures_of(rule, parameters.drop_last()) {
            Err(i) => Err(i),
            Ok(front) => match signature_of(rule, at, parameters.last()) {
                None => Err(at),
                Some(s) => Ok(front.push(s)),
            },
        }
    }
}

/// Names the parameter at a position.
pub fn name_parameter(rule: WordRule, index: usize, label: &Option<String>) -> (r: Option<String>)
    ensures
        r.deep_view() == parameter_ident(rule, index as nat, label.deep_view()),
{
    match label {
        Some(l) => guard_identifier(snake_name(rule, l.as_str())),
        None => {
            let mut name = String::from_str("arg");
            push_decimal(&mut name, index);
            Some(name)
        },
    }
}

/// Synthesises the signature of the parameter at a position: `None` where
/// its label has no word to make a name from.
pub fn synthesize(rule: WordRule, index: usize, parameter: &ParameterDescriptor) -> (r: Option<
    ParameterSignature,
>)
    ensures
        r.deep_view() == signature_of(rule, index as nat, parameter@),
{
    let file = parameter.is_file_path();
    match name_parameter(rule, index, &parameter.label) {
        None => None,
        Some(ident) => Some(
            ParameterSignature {
                ident,
                accepts: if file {
                    AcceptedType::PathLike
                } else {
                    AcceptedType::Serializable
                },
                wrapper: if file {
                    InputConstructor::FromFile
                } else {
                    InputConstructor::FromValue
                },
            },
        ),
    }
}

/// Synthesises the signatures of a parameter list, in declared order. It
/// fails with the position of the first parameter that has no name.
pub fn synthesize_all(rule: WordRule, parameters: &Vec<ParameterDescriptor>) -> (r: Result<
    Vec<ParameterSignature>,
    usize,
>)
    ensures
        match signatures_of(rule, parameters.deep_view()) {
            Ok(sigs) => r matches Ok(v) && v.deep_view() == sigs,
            Err(i) => r matches Err(e) && e == i,
        },
{
    let mut out: Vec<ParameterSignature> = Vec::new();
    let ghost all = parameters.deep_view();
    assert(out.deep_view() == Seq::<SignatureModel>::empty());
    for i in 0..parameters.len()
        invariant
            all == parameters.deep_view(),
            signatures_of(rule, all.take(i as int)) == Ok::<Seq<SignatureModel>, nat>(
                out.deep_view(),
            ),
    {
        proof {
            let next = all.take(i + 1);
            assert(next.drop_last() == all.take(i as int));
            lemma_signatures_prefix(rule, all, i + 1);
        }
        match synthesize(rule, i, &parameters[i]) {
            None => {
                return Err(i);
            },
            Some(s) => {
                let ghost before = out.deep_view();
                out.push(s);
                assert(out.deep_view() == before.push(s@));
            },
        }
    }
    assert(all.take(parameters.len() as int) == all);
    Ok(out)
}

/// A failure within a prefix of a parameter list is the failure of the
/// whole list.
pub proof fn lemma_signatures_prefix(rule: WordRule, parameters: Seq<ParameterModel>, n: int)
    requires
        0 <= n <= parameters.len(),
    ensures
        signatures_of(rule, parameters.take(n)) matches Err(i) ==> signatures_of(rule, parameters)
            == Err::<Seq<SignatureModel>, nat>(i),
    decreases parameters.len() - n,
{
    if n < parameters.len() {
        let next = parameters.take(n + 1);
        assert(next.drop_last() == parameters.take(n));
        lemma_signatures_prefix(rule, parameters, n + 1);
    } else {
        assert(parameters.take(n) == parameters);
    }
}

/// The accepted type and the wrapper follow the type tag, and nothing but
/// the type tag: the file-path tag gives a path-like parameter wrapped as a
/// file, every other tag a serialisable one wrapped as a value. Whether
/// there is a signature at all depends on the name alone.
pub proof fn law_signature_follows_type_tag(rule: WordRule, index: nat, parameter: ParameterModel)
    ensures
        signature_of(rule, index, parameter) is Some <==> parameter_ident(
            rule,
            index,
            parameter.label,
        ) is Some,
        signature_of(rule, index, parameter) matches Some(s) ==> {
            &&& s.consistent()
            &&& s.ident == parameter_ident(rule, index, parameter.label)->0
            &&& parameter.type_tag == file_path_tag() ==> s.accepts == AcceptedType::PathLike
                && s.wrapper == InputConstructor::FromFile
            &&& parameter.type_tag != file_path_tag() ==> s.accepts == AcceptedType::Serializable
                && s.wrapper == InputConstructor::FromValue
        },
{
}

/// Where every parameter has a name, the signatures are as many as the
/// parameters and stand in declared order; else the failure names the
/// first parameter without a name.
pub proof fn law_signatures_in_declared_order(rule: WordRule, parameters: Seq<ParameterModel>)
    ensures
        match signatures_of(rule, parameters) {
            Ok(sigs) => {
                &&& sigs.len() == parameters.len()
                &&& forall|i: int|
                    0 <= i < parameters.len() ==> signature_of(
                        rule,
                        i as nat,
                        #[trigger] parameters[i],
                    ) == Some(sigs[i])
            },
            Err(k) => {
                &&& k < parameters.len()
                &&& signature_of(rule, k, parameters[k as int]) is None
                &&& forall|i: int|
                    0 <= i < k ==> signature_of(rule, i as nat, #[trigger] parameters[i]) is Some
            },
        },
    decreases parameters.len(),
{
    if parameters.len() > 0 {
        let front = parameters.drop_last();
        law_signatures_in_declared_order(rule, front);
        assert forall|i: int| 0 <= i < front.len() implies front[i] == parameters[i] by {}
    }
}

/// Parameters without a label at different positions have different
/// names.
pub proof fn law_positional_names_are_distinct(rule: WordRule, i: nat, j: nat)
    requires
        i != j,
    ensures
        parameter_ident(rule, i, None) != parameter_ident(rule, j, None),
{
    let a = "arg"@ + decimal(i);
    let b = "arg"@ + decimal(j);
    if a == b {
        assert(a.skip("arg"@.len() as int) == decimal(i));
        assert(b.skip("arg"@.len() as int) == decimal(j));
        lemma_decimal_injective(i, j);
    }
}

} // verus!
