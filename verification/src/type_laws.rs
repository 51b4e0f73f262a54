//! Which Rust types have a C++ side, what that side is, and what is said of
//! the types that have none.
use crate::cpp_type;
use crate::cpp_type::{CppType, CppTypes, GenerateError};
use crate::qobject;
use crate::qobject::{Ident, Invokable, QObject};
use vstd::prelude::*;

verus! {

/// `str` and `String` have the C++ string type, `i32` has the C++ integer
/// type, and no other text has a C++ type.
pub proof fn law_three_types_are_known(type_ident: Seq<char>)
    ensures
        cpp_type::cpp_type(type_ident) == Some(CppTypes::String) <==> (type_ident == "str"@
            || type_ident == "String"@),
        cpp_type::cpp_type(type_ident) == Some(CppTypes::I32) <==> type_ident == "i32"@,
        cpp_type::cpp_type(type_ident) is None <==> (type_ident != "str"@ && type_ident
            != "String"@ && type_ident != "i32"@),
        cpp_type::known_type(type_ident) <==> (type_ident == "str"@ || type_ident == "String"@
            || type_ident == "i32"@),
{
    cpp_type::lemma_type_idents_differ();
}

/// A C++ type is `int`, which is handed over as it is, or `QString`, which is
/// handed over by const reference and converted on its way to and from Rust.
pub proof fn law_attributes_of_types(t: CppTypes)
    ensures
        t.cpp_name() == "int"@ || t.cpp_name() == "QString"@,
        t == CppTypes::I32 <==> t.cpp_name() == "int"@,
        t == CppTypes::I32 <==> !t.const_input(),
        t == CppTypes::I32 <==> !t.ref_input(),
        t == CppTypes::I32 <==> t.cpp_converter() is None,
        t == CppTypes::I32 <==> t.rust_converter() is None,
        t == CppTypes::String <==> t.cpp_name() == "QString"@,
        t == CppTypes::String <==> t.cpp_converter() == Some("rustStringToQString"@),
        t == CppTypes::String <==> t.rust_converter() == Some("qStringToRustString"@),
{
    reveal_strlit("int");
    reveal_strlit("QString");
    assert("int"@.len() != "QString"@.len());
}

/// The types of a list are all known exactly if each is `str`, `String` or
/// `i32`.
pub proof fn law_known_lists(types: Seq<Ident>)
    ensures
        cpp_type::all_known(types) <==> (forall|i: int|
            #![trigger types[i]]
            0 <= i < types.len() ==> (types[i].text@ == "str"@ || types[i].text@ == "String"@
                || types[i].text@ == "i32"@)),
{
    if cpp_type::all_known(types) {
        assert forall|i: int| #![trigger types[i]] 0 <= i < types.len() implies (types[i].text@
            == "str"@ || types[i].text@ == "String"@ || types[i].text@ == "i32"@) by {
            law_three_types_are_known(types[i]@);
        }
    } else {
        let i = choose|i: int|
            0 <= i < types.len() && !cpp_type::known_type(#[trigger] types[i]@);
        law_three_types_are_known(types[i]@);
    }
}

/// An error stands at a type that is neither `str`, `String` nor `i32`, while
/// all types before it are, and its message ends in the text of that type.
pub proof fn law_errors_stand_at_the_first_unknown_type(error: GenerateError, types: Seq<Ident>)
    requires
        cpp_type::reports_first_unknown(error, types),
    ensures
        exists|i: int|
            #![trigger types[i]]
            {
                &&& 0 <= i < types.len()
                &&& types[i].text@ != "str"@
                &&& types[i].text@ != "String"@
                &&& types[i].text@ != "i32"@
                &&& error.span == types[i].span
                &&& error.message@ == "Unknown type ident to convert to C++: "@ + types[i].text@
                &&& forall|j: int|
                    #![trigger types[j]]
                    0 <= j < i ==> (types[j].text@ == "str"@ || types[j].text@ == "String"@
                        || types[j].text@ == "i32"@)
            },
{
    let i = choose|i: int| #[trigger]
        cpp_type::first_unknown(types, i) && error.reports(types[i]);
    law_three_types_are_known(types[i]@);
    law_known_lists(types.take(i));
    assert forall|j: int| #![trigger types[j]] 0 <= j < i implies (types[j].text@ == "str"@
        || types[j].text@ == "String"@ || types[j].text@ == "i32"@) by {
        assert(types.take(i)[j] == types[j]);
    }
}

/// An object is translated property by property first: their types come first,
/// in the order of the properties, and those of the invokables follow.
pub proof fn law_types_of_properties_come_first(obj: QObject)
    ensures
        obj.properties@.len() <= qobject::object_types(obj).len(),
        forall|i: int|
            0 <= i < obj.properties@.len() ==> #[trigger] qobject::object_types(obj)[i]
                == obj.properties@[i].type_ident,
        qobject::object_types(obj).skip(obj.properties@.len() as int) == qobject::invokable_types(
            obj.invokables@,
        ),
{
}

/// The types of a list of invokables are those of their parameters, one
/// invokable after the other.
pub proof fn law_types_of_invokables_are_those_of_their_parameters(
    invokables: Seq<Invokable>,
    invokable: Invokable,
)
    ensures
        qobject::invokable_types(Seq::empty()) == Seq::<Ident>::empty(),
        qobject::invokable_types(invokables.push(invokable)) == qobject::invokable_types(invokables)
            + invokable.parameters@.map_values(|p: qobject::Parameter| p.type_ident),
        qobject::parameter_types(invokable.parameters@) == invokable.parameters@.map_values(
            |p: qobject::Parameter| p.type_ident,
        ),
{
    let longer = invokables.push(invokable);
    assert(longer.drop_last() == invokables);
    assert(qobject::parameter_types(invokable.parameters@) == invokable.parameters@.map_values(
        |p: qobject::Parameter| p.type_ident,
    ));
}

/// The types of a list of properties are the types of the properties, in
/// order.
pub proof fn law_types_of_properties_are_their_types(properties: Seq<qobject::Property>)
    ensures
        qobject::property_types(properties) == properties.map_values(
            |p: qobject::Property| p.type_ident,
        ),
{
}

/// What an object says are the texts of its identifiers, and nothing else.
pub proof fn law_objects_say_their_identifiers(obj: QObject)
    ensures
        obj@.ident == obj.ident.text@,
        obj@.properties == obj.properties@.map_values(
            |p: qobject::Property|
                qobject::PropertyModel { ident: p.ident.text@, type_ident: p.type_ident.text@ },
        ),
        obj@.invokables == obj.invokables@.map_values(
            |i: Invokable|
                qobject::InvokableModel {
                    ident: i.ident.text@,
                    parameters: i.parameters@.map_values(
                        |p: qobject::Parameter|
                            qobject::ParameterModel {
                                ident: p.ident.text@,
                                type_ident: p.type_ident.text@,
                            },
                    ),
                },
        ),
{
    assert forall|k: int| 0 <= k < obj.invokables@.len() implies (
    #[trigger] obj@.invokables[k]).parameters == obj.invokables@[k].parameters@.map_values(
        |p: qobject::Parameter|
            qobject::ParameterModel { ident: p.ident.text@, type_ident: p.type_ident.text@ },
    ) by {}
}

} // verus!
