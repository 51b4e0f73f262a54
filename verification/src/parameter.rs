//! Parameters of C++ methods.
use crate::cpp_type;
use crate::cpp_type::{generate_type_cpp, CppType, CppTypes, GenerateError};
use crate::qobject;
use crate::qobject::{Parameter, ParameterModel};
use crate::text;
use crate::text::join;
use vstd::prelude::*;

verus! {

/// Describes a C++ parameter, which is a name combined with a type
#[derive(Debug)]
pub struct CppParameter {
    /// The ident of the parameter
    pub ident: String,
    /// The type of the parameter
    pub type_ident: CppTypes,
}

/// What a C++ parameter says.
#[verifier::ext_equal]
pub struct CppParameterModel {
    pub ident: Seq<char>,
    pub type_ident: CppTypes,
}

impl View for CppParameter {
    type V = CppParameterModel;

    open spec fn view(&self) -> CppParameterModel {
        CppParameterModel { ident: self.ident@, type_ident: self.type_ident }
    }
}

/// What the C++ parameters of a list say.
pub open spec fn cpp_parameter_models(parameters: Seq<CppParameter>) -> Seq<CppParameterModel> {
    Seq::new(parameters.len(), |i: int| parameters[i]@)
}

/// The C++ parameters for parameters whose types are all known: the same
/// names in the same order, each with the C++ type for its Rust type.
pub open spec fn translated(parameters: Seq<ParameterModel>) -> Seq<CppParameterModel> {
    Seq::new(
        parameters.len(),
        |i: int|
            CppParameterModel {
                ident: parameters[i].ident,
                type_ident: cpp_type::cpp_type(parameters[i].type_ident)->0,
            },
    )
}

/// The word before the type of an input.
pub open spec fn const_word(t: CppTypes) -> Seq<char> {
    if t.const_input() {
        "const"@
    } else {
        ""@
    }
}

/// The mark behind the type of an input.
pub open spec fn ref_mark(t: CppTypes) -> Seq<char> {
    if t.ref_input() {
        "&"@
    } else {
        ""@
    }
}

/// An input of a C++ method, as the method declares it.
pub open spec fn argument(t: CppTypes, ident: Seq<char>) -> Seq<char> {
    const_word(t) + " "@ + t.cpp_name() + ref_mark(t) + " "@ + ident
}

/// An input of a C++ method, as it is handed on to Rust.
pub open spec fn handed_on(t: CppTypes, ident: Seq<char>) -> Seq<char> {
    match t.rust_converter() {
        Some(converter) => converter + "("@ + ident + ")"@,
        None => ident,
    }
}

/// The inputs of a C++ method, as the method declares them.
pub open spec fn argument_line(parameters: Seq<CppParameterModel>) -> Seq<char> {
    text::joined(
        Seq::new(
            parameters.len(),
            |i: int| argument(parameters[i].type_ident, parameters[i].ident),
        ),
        ", "@,
    )
}

/// The inputs of a C++ method, as they are handed on to Rust.
pub open spec fn handed_on_line(parameters: Seq<CppParameterModel>) -> Seq<char> {
    text::joined(
        Seq::new(
            parameters.len(),
            |i: int| handed_on(parameters[i].type_ident, parameters[i].ident),
        ),
        ", "@,
    )
}

/// Generate a string of parameters with their type in C++ style from a given list of rust parameters
pub fn generate_parameters_cpp(parameters: &[Parameter]) -> (r: Result<
    Vec<CppParameter>,
    GenerateError,
>)
    ensures
        r is Ok == cpp_type::all_known(qobject::parameter_types(parameters@)),
        r matches Ok(items) ==> cpp_parameter_models(items@) == translated(
            qobject::parameter_models(parameters@),
        ),
        r matches Err(e) ==> cpp_type::reports_first_unknown(
            e,
            qobject::parameter_types(parameters@),
        ),
{
    let ghost types = qobject::parameter_types(parameters@);
    let ghost models = translated(qobject::parameter_models(parameters@));
    let mut items: Vec<CppParameter> = vec![];
    for i in 0..parameters.len()
        invariant
            types == qobject::parameter_types(parameters@),
            models == translated(qobject::parameter_models(parameters@)),
            cpp_type::all_known(types.take(i as int)),
            items@.len() == i,
            forall|j: int| 0 <= j < i ==> #[trigger] items@[j]@ == models[j],
    {
        let parameter = &parameters[i];
        match generate_type_cpp(&parameter.type_ident) {
            Ok(type_ident) => {
                items.push(CppParameter { ident: parameter.ident.text.clone(), type_ident });
                assert(types.take(i + 1) == types.take(i as int).push(types[i as int]));
            },
            Err(error) => {
                assert(cpp_type::first_unknown(types, i as int));
                return Err(error);
            },
        }
    }
    assert(types.take(types.len() as int) == types);
    assert(cpp_parameter_models(items@) == models);
    Ok(items)
}

/// An input of a C++ method, as the method declares it.
pub fn parameter_arg(type_ident: &CppTypes, ident: &str) -> (r: String)
    ensures
        r@ == argument(*type_ident, ident@),
{
    let is_const = if type_ident.is_const() {
        "const"
    } else {
        ""
    };
    let is_ref = if type_ident.is_ref() {
        "&"
    } else {
        ""
    };
    let mut arg = is_const.to_owned();
    arg.append(" ");
    arg.append(type_ident.type_ident());
    arg.append(is_ref);
    arg.append(" ");
    arg.append(ident);
    arg
}

/// An input of a C++ method, as it is handed on to Rust.
pub fn parameter_name(type_ident: &CppTypes, ident: &str) -> (r: String)
    ensures
        r@ == handed_on(*type_ident, ident@),
{
    // If there is a converter then use it
    if let Some(converter_ident) = type_ident.convert_into_rust() {
        let mut name = converter_ident.to_owned();
        name.append("(");
        name.append(ident);
        name.append(")");
        name
    } else {
        // No converter so use the same name
        ident.to_owned()
    }
}

/// The declarations of a list of parameters, separated by commas.
pub fn parameter_arg_line(parameters: &[CppParameter]) -> (r: String)
    ensures
        r@ == argument_line(cpp_parameter_models(parameters@)),
{
    let ghost models = cpp_parameter_models(parameters@);
    let mut args: Vec<String> = vec![];
    for i in 0..parameters.len()
        invariant
            models == cpp_parameter_models(parameters@),
            args@.len() == i,
            forall|j: int|
                0 <= j < i ==> #[trigger] args@[j]@ == argument(
                    models[j].type_ident,
                    models[j].ident,
                ),
    {
        let parameter = &parameters[i];
        args.push(parameter_arg(&parameter.type_ident, parameter.ident.as_str()));
    }
    assert(text::views(args@) == Seq::new(
        models.len(),
        |i: int| argument(models[i].type_ident, models[i].ident),
    ));
    join(args.as_slice(), ", ")
}

/// A list of parameters as they are handed on to Rust, separated by commas.
pub fn parameter_name_line(parameters: &[CppParameter]) -> (r: String)
    ensures
        r@ == handed_on_line(cpp_parameter_models(parameters@)),
{
    let ghost models = cpp_parameter_models(parameters@);
    let mut names: Vec<String> = vec![];
    for i in 0..parameters.len()
        invariant
            models == cpp_parameter_models(parameters@),
            names@.len() == i,
            forall|j: int|
                0 <= j < i ==> #[trigger] names@[j]@ == handed_on(
                    models[j].type_ident,
                    models[j].ident,
                ),
    {
        let parameter = &parameters[i];
        names.push(parameter_name(&parameter.type_ident, parameter.ident.as_str()));
    }
    assert(text::views(names@) == Seq::new(
        models.len(),
        |i: int| handed_on(models[i].type_ident, models[i].ident),
    ));
    join(names.as_slice(), ", ")
}

} // verus!
