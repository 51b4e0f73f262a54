//! What the members of a class are in C++, for each type.
use crate::cpp_type;
use crate::cpp_type::{CppType, CppTypes};
use crate::invokable;
use crate::invokable::{CppInvokable, InvokableText};
use crate::naming;
use crate::naming::{NameCase, PropertyNames, PropertyNamesModel};
use crate::parameter;
use crate::parameter::{CppParameter, CppParameterModel};
use crate::property;
use crate::property::{CppProperty, PropertyText};
use crate::qobject::{InvokableModel, ParameterModel, PropertyModel};
use crate::text;
use vstd::prelude::*;

verus! {

/// An integer is declared as `int`, a string as a const reference to a
/// `QString`.
pub proof fn law_inputs_are_declared_by_type(t: CppTypes, ident: Seq<char>)
    ensures
        t == CppTypes::I32 ==> parameter::argument(t, ident) == " int "@ + ident,
        t == CppTypes::String ==> parameter::argument(t, ident) == "const QString& "@ + ident,
{
    reveal_strlit("");
    reveal_strlit(" ");
    reveal_strlit("int");
    reveal_strlit(" int ");
    assert(" int "@ == ""@ + " "@ + "int"@ + ""@ + " "@);
    reveal_strlit("const");
    reveal_strlit("QString");
    reveal_strlit("&");
    reveal_strlit("const QString& ");
    assert("const QString& "@ == "const"@ + " "@ + "QString"@ + "&"@ + " "@);
}

/// An integer is handed on to Rust as it is, a string through its converter.
pub proof fn law_inputs_are_handed_on_by_type(t: CppTypes, ident: Seq<char>)
    ensures
        t == CppTypes::I32 ==> parameter::handed_on(t, ident) == ident,
        t == CppTypes::String ==> parameter::handed_on(t, ident) == "qStringToRustString("@ + ident
            + ")"@,
{
    reveal_strlit("qStringToRustString");
    reveal_strlit("(");
    reveal_strlit("qStringToRustString(");
    assert("qStringToRustString("@ == "qStringToRustString"@ + "("@);
}

/// Every parameter, at whatever position, is declared and handed on by its own
/// type.
pub proof fn law_every_parameter_goes_by_its_own_type(parameters: Seq<CppParameterModel>)
    ensures
        parameter::argument_line(parameters) == text::joined(
            parameters.map_values(
                |p: CppParameterModel|
                    match p.type_ident {
                        CppTypes::I32 => " int "@ + p.ident,
                        CppTypes::String => "const QString& "@ + p.ident,
                    },
            ),
            ", "@,
        ),
        parameter::handed_on_line(parameters) == text::joined(
            parameters.map_values(
                |p: CppParameterModel|
                    match p.type_ident {
                        CppTypes::I32 => p.ident,
                        CppTypes::String => "qStringToRustString("@ + p.ident + ")"@,
                    },
            ),
            ", "@,
        ),
{
    let declared = parameters.map_values(
        |p: CppParameterModel|
            match p.type_ident {
                CppTypes::I32 => " int "@ + p.ident,
                CppTypes::String => "const QString& "@ + p.ident,
            },
    );
    let handed = parameters.map_values(
        |p: CppParameterModel|
            match p.type_ident {
                CppTypes::I32 => p.ident,
                CppTypes::String => "qStringToRustString("@ + p.ident + ")"@,
            },
    );
    assert forall|i: int| 0 <= i < parameters.len() implies #[trigger] declared[i]
        == parameter::argument(parameters[i].type_ident, parameters[i].ident) by {
        law_inputs_are_declared_by_type(parameters[i].type_ident, parameters[i].ident);
    }
    assert forall|i: int| 0 <= i < parameters.len() implies #[trigger] handed[i]
        == parameter::handed_on(parameters[i].type_ident, parameters[i].ident) by {
        law_inputs_are_handed_on_by_type(parameters[i].type_ident, parameters[i].ident);
    }
    assert(declared == Seq::new(
        parameters.len(),
        |i: int| parameter::argument(parameters[i].type_ident, parameters[i].ident),
    ));
    assert(handed == Seq::new(
        parameters.len(),
        |i: int| parameter::handed_on(parameters[i].type_ident, parameters[i].ident),
    ));
}

/// What is declared and handed on for two lists of parameters is what it is
/// for the first, a comma, and what it is for the second.
pub proof fn law_parameters_are_listed_one_after_the_other(
    front: Seq<CppParameterModel>,
    back: Seq<CppParameterModel>,
)
    requires
        front.len() > 0,
        back.len() > 0,
    ensures
        parameter::argument_line(front + back) == parameter::argument_line(front) + ", "@
            + parameter::argument_line(back),
        parameter::handed_on_line(front + back) == parameter::handed_on_line(front) + ", "@
            + parameter::handed_on_line(back),
{
    let declared = |ps: Seq<CppParameterModel>|
        Seq::new(ps.len(), |i: int| parameter::argument(ps[i].type_ident, ps[i].ident));
    let handed = |ps: Seq<CppParameterModel>|
        Seq::new(ps.len(), |i: int| parameter::handed_on(ps[i].type_ident, ps[i].ident));
    assert(declared(front + back) == declared(front) + declared(back));
    assert(handed(front + back) == handed(front) + handed(back));
    text::law_joining(declared(front), declared(back), seq![], ", "@);
    text::law_joining(handed(front), handed(back), seq![], ", "@);
}

/// Parameters of known types keep their names and their order; those that are
/// `i32` become integers, the others strings.
pub proof fn law_parameters_keep_names_and_order(parameters: Seq<ParameterModel>)
    requires
        forall|i: int|
            #![trigger parameters[i]]
            0 <= i < parameters.len() ==> parameters[i].type_ident == "str"@
                || parameters[i].type_ident == "String"@ || parameters[i].type_ident == "i32"@,
    ensures
        parameter::translated(parameters) == parameters.map_values(
            |p: ParameterModel|
                CppParameterModel {
                    ident: p.ident,
                    type_ident: if p.type_ident == "i32"@ {
                        CppTypes::I32
                    } else {
                        CppTypes::String
                    },
                },
        ),
{
    cpp_type::lemma_type_idents_differ();
}

/// An invokable is declared with its name and its parameters, and its
/// definition calls the method of the same name on the Rust object with each
/// parameter, converted where it is a string.
pub proof fn law_invokables_call_their_rust_method(
    struct_ident: Seq<char>,
    ident: Seq<char>,
    parameters: Seq<CppParameterModel>,
)
    ensures
        ({
            let declared = text::joined(
                parameters.map_values(
                    |p: CppParameterModel|
                        match p.type_ident {
                            CppTypes::I32 => " int "@ + p.ident,
                            CppTypes::String => "const QString& "@ + p.ident,
                        },
                ),
                ", "@,
            );
            let handed = text::joined(
                parameters.map_values(
                    |p: CppParameterModel|
                        match p.type_ident {
                            CppTypes::I32 => p.ident,
                            CppTypes::String => "qStringToRustString("@ + p.ident + ")"@,
                        },
                ),
                ", "@,
            );
            &&& invokable::invokable_header(ident, parameters) == "Q_INVOKABLE void "@ + ident
                + "("@ + declared + ") const;"@
            &&& invokable::invokable_source(struct_ident, ident, parameters) == "void "@
                + struct_ident + "::"@ + ident + "("@ + declared
                + ") const\n{\n    m_rustObj->"@ + ident + "("@ + handed + ");\n}"@
        }),
{
    law_every_parameter_goes_by_its_own_type(parameters);
}

/// The texts of an invokable are those for its name and its parameters in C++
/// terms, and each invokable of a list has its own.
pub proof fn law_invokables_have_their_own_texts(
    struct_ident: Seq<char>,
    invokables: Seq<InvokableModel>,
)
    ensures
        invokable::invokable_texts(struct_ident, invokables) == invokables.map_values(
            |i: InvokableModel|
                InvokableText {
                    header: invokable::invokable_header(
                        i.ident,
                        parameter::translated(i.parameters),
                    ),
                    source: invokable::invokable_source(
                        struct_ident,
                        i.ident,
                        parameter::translated(i.parameters),
                    ),
                },
        ),
{
}

/// The getter and the setter of a property are named `get` and `set` before
/// its name in title case, the signal `Changed` behind its name in camel case;
/// in Rust they are its name and the name of the setter in snake case.
pub proof fn law_names_of_properties(
    ident: Seq<char>,
    title: Seq<char>,
    snake: Seq<char>,
    camel: Seq<char>,
    setter_snake: Seq<char>,
)
    ensures
        naming::setter_name(title) == "set"@ + title,
        naming::names_from_cases(title, snake, camel, setter_snake) == (PropertyNamesModel {
            getter: "get"@ + title,
            getter_rust: snake,
            setter: "set"@ + title,
            setter_rust: setter_snake,
            changed: camel + "Changed"@,
        }),
        naming::property_names(ident) == (PropertyNamesModel {
            getter: "get"@ + naming::case_converted(ident, NameCase::Title),
            getter_rust: naming::case_converted(ident, NameCase::Snake),
            setter: "set"@ + naming::case_converted(ident, NameCase::Title),
            setter_rust: naming::case_converted(
                "set"@ + naming::case_converted(ident, NameCase::Title),
                NameCase::Snake,
            ),
            changed: naming::case_converted(ident, NameCase::Camel) + "Changed"@,
        }),
{
}

/// The texts of the properties of a list are those for their names and types:
/// `i32` is an integer, another known type a string.
pub proof fn law_properties_have_their_own_texts(
    struct_ident: Seq<char>,
    properties: Seq<PropertyModel>,
)
    requires
        forall|i: int|
            #![trigger properties[i]]
            0 <= i < properties.len() ==> properties[i].type_ident == "str"@
                || properties[i].type_ident == "String"@ || properties[i].type_ident == "i32"@,
    ensures
        property::property_texts(struct_ident, properties) == properties.map_values(
            |p: PropertyModel|
                property::property_text_named(
                    struct_ident,
                    p.ident,
                    if p.type_ident == "i32"@ {
                        CppTypes::I32
                    } else {
                        CppTypes::String
                    },
                    naming::property_names(p.ident),
                ),
        ),
        forall|i: int|
            0 <= i < properties.len() ==> #[trigger] property::property_texts(
                struct_ident,
                properties,
            )[i] == property::property_text(struct_ident, properties[i]),
{
    cpp_type::lemma_type_idents_differ();
}

/// The methods of an integer property: the getter returns what the Rust getter
/// returns; the setter hands a value that differs from it to the Rust setter,
/// and then emits the signal that the header declares.
pub proof fn law_integer_properties(
    struct_ident: Seq<char>,
    ident: Seq<char>,
    names: PropertyNamesModel,
)
    ensures
        property::property_text_named(struct_ident, ident, CppTypes::I32, names) == (PropertyText {
            header_meta: "Q_PROPERTY(int "@ + ident + " READ "@ + names.getter + " WRITE "@
                + names.setter + " NOTIFY "@ + names.changed + ")"@,
            header_public: "int "@ + names.getter + "() const;"@,
            header_signals: "void "@ + names.changed + "();"@,
            header_slots: "void "@ + names.setter + "( int value);"@,
            source: ("int\n"@ + struct_ident + "::"@ + names.getter
                + "() const\n{\n    return m_rustObj->"@ + names.getter_rust + "();\n}\n\n"@) + (
            "void\n"@ + struct_ident + "::"@ + names.setter
                + "( int value)\n{\n    if (value != m_rustObj->"@ + names.getter_rust
                + "()) {\n        m_rustObj->"@ + names.setter_rust
                + "(value);\n\n        Q_EMIT "@ + names.changed + "();\n    }\n}\n"@),
        }),
{
    let t = CppTypes::I32;
    let text = property::property_text_named(struct_ident, ident, t, names);
    law_inputs_are_declared_by_type(t, "value"@);
    reveal_strlit("value");
    reveal_strlit(" int ");
    reveal_strlit("int");
    reveal_strlit(" ");
    reveal_strlit("");
    reveal_strlit("\n");
    reveal_strlit("Q_PROPERTY(");
    reveal_strlit("Q_PROPERTY(int ");
    assert("Q_PROPERTY(int "@ == "Q_PROPERTY("@ + "int"@ + " "@);
    reveal_strlit("int ");
    assert("int "@ == "int"@ + " "@);
    reveal_strlit(");");
    reveal_strlit("( int value);");
    reveal_strlit("(");
    assert("( int value);"@ == "("@ + (" int "@ + "value"@) + ");"@);
    assert(text.header_slots == "void "@ + names.setter + "( int value);"@);

    reveal_strlit("int\n");
    assert("int\n"@ == "int"@ + "\n"@);
    reveal_strlit("() const\n{\n    ");
    reveal_strlit("return ");
    reveal_strlit("m_rustObj->");
    reveal_strlit("() const\n{\n    return m_rustObj->");
    assert("() const\n{\n    return m_rustObj->"@ == "() const\n{\n    "@ + "return "@
        + "m_rustObj->"@);
    reveal_strlit("()");
    reveal_strlit(";");
    reveal_strlit("\n}");
    reveal_strlit("\n\n");
    reveal_strlit("();\n}\n\n");
    assert("();\n}\n\n"@ == "()"@ + ";"@ + "\n}"@ + "\n\n"@);
    let getter = "int\n"@ + struct_ident + "::"@ + names.getter
        + "() const\n{\n    return m_rustObj->"@ + names.getter_rust + "();\n}\n\n"@;
    assert(property::getter_definition(struct_ident, t, names) + "\n\n"@ == getter);

    let head = "void\n"@ + struct_ident + "::"@ + names.setter;
    reveal_strlit(")\n{");
    reveal_strlit("\n    if (");
    reveal_strlit(" != ");
    reveal_strlit("( int value)\n{\n    if (value != m_rustObj->");
    assert("( int value)\n{\n    if (value != m_rustObj->"@ == "("@ + (" int "@ + "value"@)
        + ")\n{"@ + ""@ + "\n    if ("@ + "value"@ + " != "@ + "m_rustObj->"@);
    reveal_strlit(") {\n        m_rustObj->");
    reveal_strlit("()) {\n        m_rustObj->");
    assert("()) {\n        m_rustObj->"@ == "()"@ + ") {\n        m_rustObj->"@);
    let guarded = head + "( int value)\n{\n    if (value != m_rustObj->"@ + names.getter_rust
        + "()) {\n        m_rustObj->"@ + names.setter_rust;
    assert(head + "("@ + (" int "@ + "value"@) + ")\n{"@ + ""@ + "\n    if ("@ + "value"@ + " != "@
        + ("m_rustObj->"@ + names.getter_rust + "()"@) + ") {\n        m_rustObj->"@
        + names.setter_rust == guarded);
    reveal_strlit(");\n\n        Q_EMIT ");
    reveal_strlit("(value);\n\n        Q_EMIT ");
    assert("(value);\n\n        Q_EMIT "@ == "("@ + "value"@ + ");\n\n        Q_EMIT "@);
    reveal_strlit("();\n    }\n}");
    reveal_strlit("();\n    }\n}\n");
    assert("();\n    }\n}\n"@ == "();\n    }\n}"@ + "\n"@);
    let setter = guarded + "(value);\n\n        Q_EMIT "@ + names.changed + "();\n    }\n}\n"@;
    assert(property::setter_definition(struct_ident, t, names) + "\n"@ == setter);
    assert(text.source == getter + setter);
}

/// The methods of a string property: the getter converts what the Rust getter
/// returns; the setter converts its value, hands a converted value that differs
/// from what the Rust getter returns to the Rust setter, and then emits the
/// signal that the header declares.
pub proof fn law_string_properties(
    struct_ident: Seq<char>,
    ident: Seq<char>,
    names: PropertyNamesModel,
)
    ensures
        property::property_text_named(struct_ident, ident, CppTypes::String, names) == (
        PropertyText {
            header_meta: "Q_PROPERTY(QString "@ + ident + " READ "@ + names.getter + " WRITE "@
                + names.setter + " NOTIFY "@ + names.changed + ")"@,
            header_public: "QString "@ + names.getter + "() const;"@,
            header_signals: "void "@ + names.changed + "();"@,
            header_slots: "void "@ + names.setter + "(const QString& value);"@,
            source: ("QString\n"@ + struct_ident + "::"@ + names.getter
                + "() const\n{\n    return rustStringToQString(m_rustObj->"@ + names.getter_rust
                + "());\n}\n\n"@) + ("void\n"@ + struct_ident + "::"@ + names.setter
                + "(const QString& value)\n{auto rustValue = qStringToRustString(value);\n"@
                + "    if (rustValue != m_rustObj->"@ + names.getter_rust
                + "()) {\n        m_rustObj->"@ + names.setter_rust
                + "(std::move(rustValue));\n\n        Q_EMIT "@ + names.changed
                + "();\n    }\n}\n"@),
        }),
{
    let t = CppTypes::String;
    let text = property::property_text_named(struct_ident, ident, t, names);
    law_inputs_are_declared_by_type(t, "value"@);
    reveal_strlit("value");
    reveal_strlit("const QString& ");
    reveal_strlit("QString");
    reveal_strlit(" ");
    reveal_strlit("\n");
    reveal_strlit("Q_PROPERTY(");
    reveal_strlit("Q_PROPERTY(QString ");
    assert("Q_PROPERTY(QString "@ == "Q_PROPERTY("@ + "QString"@ + " "@);
    reveal_strlit("QString ");
    assert("QString "@ == "QString"@ + " "@);
    reveal_strlit("(");
    reveal_strlit(");");
    reveal_strlit("(const QString& value);");
    assert("(const QString& value);"@ == "("@ + ("const QString& "@ + "value"@) + ");"@);
    assert(text.header_slots == "void "@ + names.setter + "(const QString& value);"@);

    reveal_strlit("QString\n");
    assert("QString\n"@ == "QString"@ + "\n"@);
    reveal_strlit("() const\n{\n    ");
    reveal_strlit("return ");
    reveal_strlit("rustStringToQString");
    reveal_strlit("m_rustObj->");
    reveal_strlit("() const\n{\n    return rustStringToQString(m_rustObj->");
    assert("() const\n{\n    return rustStringToQString(m_rustObj->"@ == "() const\n{\n    "@
        + "return "@ + "rustStringToQString"@ + "("@ + "m_rustObj->"@);
    reveal_strlit("()");
    reveal_strlit("\n}");
    reveal_strlit("\n\n");
    reveal_strlit("());\n}\n\n");
    assert("());\n}\n\n"@ == "()"@ + ");"@ + "\n}"@ + "\n\n"@);
    let getter = "QString\n"@ + struct_ident + "::"@ + names.getter
        + "() const\n{\n    return rustStringToQString(m_rustObj->"@ + names.getter_rust
        + "());\n}\n\n"@;
    assert(property::getter_definition(struct_ident, t, names) + "\n\n"@ == getter);

    let head = "void\n"@ + struct_ident + "::"@ + names.setter;
    let conversion = "auto rustValue = "@ + "qStringToRustString"@ + "(value);"@;
    reveal_strlit("auto rustValue = ");
    reveal_strlit("qStringToRustString");
    reveal_strlit("(value);");
    reveal_strlit(")\n{");
    reveal_strlit("(const QString& value)\n{auto rustValue = qStringToRustString(value);\n");
    assert("(const QString& value)\n{auto rustValue = qStringToRustString(value);\n"@ == "("@ + (
    "const QString& "@ + "value"@) + ")\n{"@ + conversion + "\n"@);
    reveal_strlit("\n    if (");
    reveal_strlit("rustValue");
    reveal_strlit(" != ");
    reveal_strlit("    if (rustValue != m_rustObj->");
    assert("\n"@ + "    if (rustValue != m_rustObj->"@ == "\n    if ("@ + "rustValue"@ + " != "@
        + "m_rustObj->"@);
    reveal_strlit(") {\n        m_rustObj->");
    reveal_strlit("()) {\n        m_rustObj->");
    assert("()) {\n        m_rustObj->"@ == "()"@ + ") {\n        m_rustObj->"@);
    let opened = head + "("@ + ("const QString& "@ + "value"@) + ")\n{"@ + conversion;
    assert(opened + "\n"@ == head
        + "(const QString& value)\n{auto rustValue = qStringToRustString(value);\n"@);
    let guarded = head + "(const QString& value)\n{auto rustValue = qStringToRustString(value);\n"@
        + "    if (rustValue != m_rustObj->"@ + names.getter_rust + "()) {\n        m_rustObj->"@
        + names.setter_rust;
    assert(guarded == opened + ("\n"@ + "    if (rustValue != m_rustObj->"@) + names.getter_rust
        + "()) {\n        m_rustObj->"@ + names.setter_rust);
    assert(opened + "\n    if ("@ + "rustValue"@ + " != "@ + ("m_rustObj->"@ + names.getter_rust
        + "()"@) + ") {\n        m_rustObj->"@ + names.setter_rust == guarded);
    reveal_strlit("std::move(rustValue)");
    reveal_strlit(");\n\n        Q_EMIT ");
    reveal_strlit("(std::move(rustValue));\n\n        Q_EMIT ");
    assert("(std::move(rustValue));\n\n        Q_EMIT "@ == "("@ + "std::move(rustValue)"@
        + ");\n\n        Q_EMIT "@);
    reveal_strlit("();\n    }\n}");
    reveal_strlit("();\n    }\n}\n");
    assert("();\n    }\n}\n"@ == "();\n    }\n}"@ + "\n"@);
    let setter = guarded + "(std::move(rustValue));\n\n        Q_EMIT "@ + names.changed
        + "();\n    }\n}\n"@;
    assert(property::setter_definition(struct_ident, t, names) + "\n"@ == setter);
    assert(text.source == getter + setter);
}

/// The setter of a property calls the Rust setter and then emits the signal
/// that the header declares and that the meta definition names.
pub proof fn law_setters_emit_the_declared_signal(
    struct_ident: Seq<char>,
    ident: Seq<char>,
    t: CppTypes,
    names: PropertyNamesModel,
)
    ensures
        ({
            let property = property::property_text_named(struct_ident, ident, t, names);
            let value = match t {
                CppTypes::I32 => "value"@,
                CppTypes::String => "std::move(rustValue)"@,
            };
            &&& property.header_signals == "void "@ + names.changed + "();"@
            &&& text::occurs_in(" NOTIFY "@ + names.changed + ")"@, property.header_meta)
            &&& text::occurs_in(
                "m_rustObj->"@ + names.setter_rust + "("@ + value + ");\n\n        Q_EMIT "@
                    + names.changed + "();"@,
                property.source,
            )
        }),
{
    broadcast use {text::lemma_occurs_in_front, text::lemma_occurs_in_back};

    let property = property::property_text_named(struct_ident, ident, t, names);
    let notified = " NOTIFY "@ + names.changed + ")"@;
    assert(property.header_meta == ("Q_PROPERTY("@ + t.cpp_name() + " "@ + ident + " READ "@
        + names.getter + " WRITE "@ + names.setter) + notified);
    text::lemma_occurs_in_self(notified);

    let value = property::setter_moved_value(t);
    let emitted = "m_rustObj->"@ + names.setter_rust + "("@ + value + ");\n\n        Q_EMIT "@
        + names.changed + "();"@;
    let guard = "void\n"@ + struct_ident + "::"@ + names.setter + "("@ + parameter::argument(
        t,
        "value"@,
    ) + ")\n{"@ + property::setter_conversion(t) + "\n    if ("@ + property::setter_value(t)
        + " != "@ + property::rust_getter_call(names);
    reveal_strlit("m_rustObj->");
    reveal_strlit(") {\n        ");
    reveal_strlit(") {\n        m_rustObj->");
    assert(") {\n        m_rustObj->"@ == ") {\n        "@ + "m_rustObj->"@);
    reveal_strlit("();");
    reveal_strlit("\n    }\n}");
    reveal_strlit("();\n    }\n}");
    assert("();\n    }\n}"@ == "();"@ + "\n    }\n}"@);
    assert(property::setter_definition(struct_ident, t, names) == guard + ") {\n        "@ + emitted
        + "\n    }\n}"@);
    text::lemma_occurs_in_self(emitted);
}

/// The texts of members, and the names and types of parameters, are what the
/// fields hold, in the order of the list.
pub proof fn law_members_hold_their_texts(
    parameters: Seq<CppParameter>,
    invokables: Seq<CppInvokable>,
    properties: Seq<CppProperty>,
    names: PropertyNames,
)
    ensures
        parameter::cpp_parameter_models(parameters) == parameters.map_values(
            |p: CppParameter| CppParameterModel { ident: p.ident@, type_ident: p.type_ident },
        ),
        invokable::invokable_views(invokables) == invokables.map_values(
            |i: CppInvokable| InvokableText { header: i.header@, source: i.source@ },
        ),
        property::property_views(properties) == properties.map_values(
            |p: CppProperty|
                PropertyText {
                    header_meta: p.header_meta@,
                    header_public: p.header_public@,
                    header_signals: p.header_signals@,
                    header_slots: p.header_slots@,
                    source: p.source@,
                },
        ),
        names@ == (PropertyNamesModel {
            getter: names.getter@,
            getter_rust: names.getter_rust@,
            setter: names.setter@,
            setter_rust: names.setter_rust@,
            changed: names.changed@,
        }),
{
}

} // verus!
