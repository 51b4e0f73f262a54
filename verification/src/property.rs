//! Properties of C++ classes.
use crate::cpp_type;
use crate::cpp_type::{generate_type_cpp, CppType, CppTypes, GenerateError};
use crate::naming;
use crate::naming::{PropertyNames, PropertyNamesModel};
use crate::parameter;
use crate::parameter::parameter_arg;
use crate::qobject;
use crate::qobject::{Ident, Property, PropertyModel};
use vstd::prelude::*;

verus! {

/// Describes a C++ property with header and source parts
#[derive(Debug)]
pub struct CppProperty {
    /// The header meta definition of the property
    pub header_meta: String,
    /// The header public definition of the property
    pub header_public: String,
    /// The header signals definition of the property
    pub header_signals: String,
    /// The header slots definition of the property
    pub header_slots: String,
    /// The source implementation of the property
    pub source: String,
}

/// The texts of a C++ property.
#[verifier::ext_equal]
pub struct PropertyText {
    pub header_meta: Seq<char>,
    pub header_public: Seq<char>,
    pub header_signals: Seq<char>,
    pub header_slots: Seq<char>,
    pub source: Seq<char>,
}

impl View for CppProperty {
    type V = PropertyText;

    open spec fn view(&self) -> PropertyText {
        PropertyText {
            header_meta: self.header_meta@,
            header_public: self.header_public@,
            header_signals: self.header_signals@,
            header_slots: self.header_slots@,
            source: self.source@,
        }
    }
}

/// The texts of a list of C++ properties.
pub open spec fn property_views(properties: Seq<CppProperty>) -> Seq<PropertyText> {
    Seq::new(properties.len(), |i: int| properties[i]@)
}

/// The call that reads a property from the Rust object.
pub open spec fn rust_getter_call(names: PropertyNamesModel) -> Seq<char> {
    "m_rustObj->"@ + names.getter_rust + "()"@
}

/// The statement that returns a property to C++, through a converter where
/// its type has one.
pub open spec fn getter_statement(t: CppTypes, names: PropertyNamesModel) -> Seq<char> {
    match t.cpp_converter() {
        Some(converter) => "return "@ + converter + "("@ + rust_getter_call(names) + ");"@,
        None => "return "@ + rust_getter_call(names) + ";"@,
    }
}

/// The statement that converts the input of a setter, where its type has a
/// converter.
pub open spec fn setter_conversion(t: CppTypes) -> Seq<char> {
    match t.rust_converter() {
        Some(converter) => "auto rustValue = "@ + converter + "(value);"@,
        None => ""@,
    }
}

/// The value that a setter compares with the one that the property has.
pub open spec fn setter_value(t: CppTypes) -> Seq<char> {
    if t.rust_converter() is Some {
        "rustValue"@
    } else {
        "value"@
    }
}

/// The value that a setter hands on to Rust: a converted value is moved.
pub open spec fn setter_moved_value(t: CppTypes) -> Seq<char> {
    if t.rust_converter() is Some {
        "std::move(rustValue)"@
    } else {
        "value"@
    }
}

/// How the source of a class defines the getter of a property.
pub open spec fn getter_definition(
    struct_ident: Seq<char>,
    t: CppTypes,
    names: PropertyNamesModel,
) -> Seq<char> {
    t.cpp_name() + "\n"@ + struct_ident + "::"@ + names.getter + "() const\n{\n    "@
        + getter_statement(t, names) + "\n}"@
}

/// How the source of a class defines the setter of a property: a value other
/// than the one that the property has is handed on to the Rust object, and the
/// change is signalled.
pub open spec fn setter_definition(
    struct_ident: Seq<char>,
    t: CppTypes,
    names: PropertyNamesModel,
) -> Seq<char> {
    "void\n"@ + struct_ident + "::"@ + names.setter + "("@ + parameter::argument(t, "value"@)
        + ")\n{"@ + setter_conversion(t) + "\n    if ("@ + setter_value(t) + " != "@
        + rust_getter_call(names) + ") {\n        m_rustObj->"@ + names.setter_rust + "("@
        + setter_moved_value(t) + ");\n\n        Q_EMIT "@ + names.changed + "();\n    }\n}"@
}

/// The texts for the property `ident` of the class `struct_ident`, of the type
/// `t` and with methods named `names`.
pub open spec fn property_text_named(
    struct_ident: Seq<char>,
    ident: Seq<char>,
    t: CppTypes,
    names: PropertyNamesModel,
) -> PropertyText {
    PropertyText {
        header_meta: "Q_PROPERTY("@ + t.cpp_name() + " "@ + ident + " READ "@ + names.getter
            + " WRITE "@ + names.setter + " NOTIFY "@ + names.changed + ")"@,
        header_public: t.cpp_name() + " "@ + names.getter + "() const;"@,
        header_signals: "void "@ + names.changed + "();"@,
        header_slots: "void "@ + names.setter + "("@ + parameter::argument(t, "value"@) + ");"@,
        source: getter_definition(struct_ident, t, names) + "\n\n"@ + setter_definition(
            struct_ident,
            t,
            names,
        ) + "\n"@,
    }
}

/// The texts for a property of the class `struct_ident` whose type is known.
pub open spec fn property_text(struct_ident: Seq<char>, property: PropertyModel) -> PropertyText {
    property_text_named(
        struct_ident,
        property.ident,
        cpp_type::cpp_type(property.type_ident)->0,
        naming::property_names(property.ident),
    )
}

/// The texts for the properties of the class `struct_ident`, in order.
pub open spec fn property_texts(
    struct_ident: Seq<char>,
    properties: Seq<PropertyModel>,
) -> Seq<PropertyText> {
    Seq::new(properties.len(), |i: int| property_text(struct_ident, properties[i]))
}

/// The call that reads a property from the Rust object.
fn rust_getter(names: &PropertyNames) -> (r: String)
    ensures
        r@ == rust_getter_call(names@),
{
    let mut call = "m_rustObj->".to_owned();
    call.append(names.getter_rust.as_str());
    call.append("()");
    call
}

/// The definition of the getter of a property.
fn render_getter(struct_ident: &str, type_ident: CppTypes, names: &PropertyNames) -> (r: String)
    ensures
        r@ == getter_definition(struct_ident@, type_ident, names@),
{
    let mut statement = "return ".to_owned();
    if let Some(converter_ident) = type_ident.convert_into_cpp() {
        statement.append(converter_ident);
        statement.append("(");
        statement.append(rust_getter(names).as_str());
        statement.append(");");
    } else {
        statement.append(rust_getter(names).as_str());
        statement.append(";");
    }

    let mut source = type_ident.type_ident().to_owned();
    source.append("\n");
    source.append(struct_ident);
    source.append("::");
    source.append(names.getter.as_str());
    source.append("() const\n{\n    ");
    source.append(statement.as_str());
    source.append("\n}");
    source
}

/// The definition of the setter of a property.
fn render_setter(struct_ident: &str, type_ident: CppTypes, names: &PropertyNames) -> (r: String)
    ensures
        r@ == setter_definition(struct_ident@, type_ident, names@),
{
    let converter_setter = type_ident.convert_into_rust();
    // Build a converter which creates rustValue if required
    let conversion = if let Some(converter_ident) = converter_setter {
        let mut statement = "auto rustValue = ".to_owned();
        statement.append(converter_ident);
        statement.append("(value);");
        statement
    } else {
        "".to_owned()
    };
    // Determine if we should be using rustValue or value
    let value = if converter_setter.is_some() {
        "rustValue"
    } else {
        "value"
    };
    // If there is a setter converter then it means we have created a named variable
    // so then we should use std::move
    let moved_value = if converter_setter.is_some() {
        "std::move(rustValue)"
    } else {
        "value"
    };

    let mut source = "void\n".to_owned();
    source.append(struct_ident);
    source.append("::");
    source.append(names.setter.as_str());
    source.append("(");
    source.append(parameter_arg(&type_ident, "value").as_str());
    source.append(")\n{");
    source.append(conversion.as_str());
    source.append("\n    if (");
    source.append(value);
    source.append(" != ");
    source.append(rust_getter(names).as_str());
    source.append(") {\n        m_rustObj->");
    source.append(names.setter_rust.as_str());
    source.append("(");
    source.append(moved_value);
    source.append(");\n\n        Q_EMIT ");
    source.append(names.changed.as_str());
    source.append("();\n    }\n}");
    source
}

/// The C++ property for a name, a type and the names of its methods.
pub fn render_property(
    struct_ident: &str,
    ident: &str,
    type_ident: CppTypes,
    names: &PropertyNames,
) -> (r: CppProperty)
    ensures
        r@ == property_text_named(struct_ident@, ident@, type_ident, names@),
{
    let mut header_meta = "Q_PROPERTY(".to_owned();
    header_meta.append(type_ident.type_ident());
    header_meta.append(" ");
    header_meta.append(ident);
    header_meta.append(" READ ");
    header_meta.append(names.getter.as_str());
    header_meta.append(" WRITE ");
    header_meta.append(names.setter.as_str());
    header_meta.append(" NOTIFY ");
    header_meta.append(names.changed.as_str());
    header_meta.append(")");

    let mut header_public = type_ident.type_ident().to_owned();
    header_public.append(" ");
    header_public.append(names.getter.as_str());
    header_public.append("() const;");

    let mut header_signals = "void ".to_owned();
    header_signals.append(names.changed.as_str());
    header_signals.append("();");

    let mut header_slots = "void ".to_owned();
    header_slots.append(names.setter.as_str());
    header_slots.append("(");
    header_slots.append(parameter_arg(&type_ident, "value").as_str());
    header_slots.append(");");

    let mut source = render_getter(struct_ident, type_ident, names);
    source.append("\n\n");
    source.append(render_setter(struct_ident, type_ident, names).as_str());
    source.append("\n");

    CppProperty { header_meta, header_public, header_signals, header_slots, source }
}

/// Generate a CppProperty object containing the header and source of a given list of rust properties
pub fn generate_properties_cpp(struct_ident: &Ident, properties: &[Property]) -> (r: Result<
    Vec<CppProperty>,
    GenerateError,
>)
    ensures
        r is Ok == cpp_type::all_known(qobject::property_types(properties@)),
        r matches Ok(items) ==> property_views(items@) == property_texts(
            struct_ident@,
            qobject::property_models(properties@),
        ),
        r matches Err(e) ==> cpp_type::reports_first_unknown(
            e,
            qobject::property_types(properties@),
        ),
{
    let ghost types = qobject::property_types(properties@);
    let ghost texts = property_texts(struct_ident@, qobject::property_models(properties@));
    let mut items: Vec<CppProperty> = vec![];
    for i in 0..properties.len()
        invariant
            types == qobject::property_types(properties@),
            texts == property_texts(struct_ident@, qobject::property_models(properties@)),
            cpp_type::all_known(types.take(i as int)),
            items@.len() == i,
            forall|j: int| 0 <= j < i ==> #[trigger] items@[j]@ == texts[j],
    {
        let property = &properties[i];
        match generate_type_cpp(&property.type_ident) {
            Ok(type_ident) => {
                let names = PropertyNames::new(property.ident.text.as_str());
                items.push(
                    render_property(
                        struct_ident.text.as_str(),
                        property.ident.text.as_str(),
                        type_ident,
                        &names,
                    ),
                );
                assert(types.take(i + 1) == types.take(i as int).push(types[i as int]));
            },
            Err(error) => {
                assert(cpp_type::first_unknown(types, i as int));
                return Err(error);
            },
        }
    }
    assert(types.take(types.len() as int) == types);
    assert(property_views(items@) == texts);
    Ok(items)
}

} // verus!
