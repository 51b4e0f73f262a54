//! Invokables of C++ classes.
use crate::cpp_type;
use crate::cpp_type::GenerateError;
use crate::parameter;
use crate::parameter::{
    generate_parameters_cpp, parameter_arg_line, parameter_name_line, CppParameter,
};
use crate::qobject;
use crate::qobject::{Ident, Invokable, InvokableModel};
use vstd::prelude::*;

verus! {

/// Describes a C++ invokable with header and source parts
#[derive(Debug)]
pub struct CppInvokable {
    /// The header definition of the invokable
    pub header: String,
    /// The source implementation of the invokable
    pub source: String,
}

/// The texts of a C++ invokable.
#[verifier::ext_equal]
pub struct InvokableText {
    pub header: Seq<char>,
    pub source: Seq<char>,
}

impl View for CppInvokable {
    type V = InvokableText;

    open spec fn view(&self) -> InvokableText {
        InvokableText { header: self.header@, source: self.source@ }
    }
}

/// The texts of a list of C++ invokables.
pub open spec fn invokable_views(invokables: Seq<CppInvokable>) -> Seq<InvokableText> {
    Seq::new(invokables.len(), |i: int| invokables[i]@)
}

/// What a C++ invokable declares in the header of its class.
pub open spec fn invokable_header(
    ident: Seq<char>,
    parameters: Seq<parameter::CppParameterModel>,
) -> Seq<char> {
    "Q_INVOKABLE void "@ + ident + "("@ + parameter::argument_line(parameters) + ") const;"@
}

/// How the source of a class defines a C++ invokable: it hands its inputs on
/// to the Rust object.
pub open spec fn invokable_source(
    struct_ident: Seq<char>,
    ident: Seq<char>,
    parameters: Seq<parameter::CppParameterModel>,
) -> Seq<char> {
    "void "@ + struct_ident + "::"@ + ident + "("@ + parameter::argument_line(parameters)
        + ") const\n{\n    m_rustObj->"@ + ident + "("@ + parameter::handed_on_line(parameters)
        + ");\n}"@
}

/// The texts for an invokable of the class `struct_ident` whose types are all
/// known.
pub open spec fn invokable_text(
    struct_ident: Seq<char>,
    invokable: InvokableModel,
) -> InvokableText {
    let parameters = parameter::translated(invokable.parameters);
    InvokableText {
        header: invokable_header(invokable.ident, parameters),
        source: invokable_source(struct_ident, invokable.ident, parameters),
    }
}

/// The texts for the invokables of the class `struct_ident`, in order.
pub open spec fn invokable_texts(
    struct_ident: Seq<char>,
    invokables: Seq<InvokableModel>,
) -> Seq<InvokableText> {
    Seq::new(invokables.len(), |i: int| invokable_text(struct_ident, invokables[i]))
}

/// The C++ invokable for a name and parameters in C++ terms.
pub fn render_invokable(
    struct_ident: &str,
    ident: &str,
    parameters: &[CppParameter],
) -> (r: CppInvokable)
    ensures
        r.header@ == invokable_header(ident@, parameter::cpp_parameter_models(parameters@)),
        r.source@ == invokable_source(
            struct_ident@,
            ident@,
            parameter::cpp_parameter_models(parameters@),
        ),
{
    let parameter_arg_line = parameter_arg_line(parameters);
    let parameter_name_line = parameter_name_line(parameters);

    let mut header = "Q_INVOKABLE void ".to_owned();
    header.append(ident);
    header.append("(");
    header.append(parameter_arg_line.as_str());
    header.append(") const;");

    let mut source = "void ".to_owned();
    source.append(struct_ident);
    source.append("::");
    source.append(ident);
    source.append("(");
    source.append(parameter_arg_line.as_str());
    source.append(") const\n{\n    m_rustObj->");
    source.append(ident);
    source.append("(");
    source.append(parameter_name_line.as_str());
    source.append(");\n}");

    CppInvokable { header, source }
}

/// Generate a CppInvokable object containing the header and source of a given list of rust invokables
pub fn generate_invokables_cpp(struct_ident: &Ident, invokables: &[Invokable]) -> (r: Result<
    Vec<CppInvokable>,
    GenerateError,
>)
    ensures
        r is Ok == cpp_type::all_known(qobject::invokable_types(invokables@)),
        r matches Ok(items) ==> invokable_views(items@) == invokable_texts(
            struct_ident@,
            qobject::invokable_models(invokables@),
        ),
        r matches Err(e) ==> cpp_type::reports_first_unknown(
            e,
            qobject::invokable_types(invokables@),
        ),
{
    let ghost texts = invokable_texts(struct_ident@, qobject::invokable_models(invokables@));
    let mut items: Vec<CppInvokable> = vec![];
    for i in 0..invokables.len()
        invariant
            texts == invokable_texts(struct_ident@, qobject::invokable_models(invokables@)),
            cpp_type::all_known(qobject::invokable_types(invokables@.take(i as int))),
            items@.len() == i,
            forall|j: int| 0 <= j < i ==> #[trigger] items@[j]@ == texts[j],
    {
        let invokable = &invokables[i];
        let ghost before = qobject::invokable_types(invokables@.take(i as int));
        let ghost here = qobject::parameter_types(invokable.parameters@);
        proof {
            assert(invokables@.take(i + 1).drop_last() == invokables@.take(i as int));
            assert(qobject::invokable_types(invokables@.take(i + 1)) == before + here);
        }
        match generate_parameters_cpp(invokable.parameters.as_slice()) {
            Ok(parameters) => {
                proof {
                    cpp_type::lemma_all_known_append(before, here);
                }
                items.push(
                    render_invokable(
                        struct_ident.text.as_str(),
                        invokable.ident.text.as_str(),
                        parameters.as_slice(),
                    ),
                );
            },
            Err(error) => {
                proof {
                    let rest = qobject::lemma_invokable_types_prefix(invokables@, i + 1);
                    cpp_type::lemma_first_unknown_behind(error, before, here);
                    cpp_type::lemma_first_unknown_before(error, before + here, rest);
                }
                return Err(error);
            },
        }
    }
    assert(invokables@.take(invokables@.len() as int) == invokables@);
    assert(invokable_views(items@) == texts);
    Ok(items)
}

} // verus!
