//! What the files of a class are made of.
use crate::invokable;
use crate::invokable::InvokableText;
use crate::naming;
use crate::naming::NameCase;
use crate::object;
use crate::object::{CppObject, ObjectText};
use crate::property;
use crate::property::PropertyText;
use crate::qobject::QObjectModel;
use crate::text;
use vstd::prelude::*;

verus! {

/// The header of a class declares the Rust struct behind it and the class, in
/// it the properties, the constructor and the destructor, the getters, the
/// invokables, the slots and the signals, and behind it the function that makes
/// an object of it.
pub proof fn law_headers(
    ident: Seq<char>,
    ident_snake: Seq<char>,
    properties: Seq<PropertyText>,
    invokables: Seq<InvokableText>,
)
    ensures
        ({
            let column = |field: spec_fn(PropertyText) -> Seq<char>|
                text::joined(properties.map_values(field), "\n"@);
            let slots = if properties.len() == 0 {
                ""@
            } else {
                "public Q_SLOTS:\n"@ + column(|p: PropertyText| p.header_slots) + "\n"@
            };
            let signals = if properties.len() == 0 {
                ""@
            } else {
                "Q_SIGNALS:\n"@ + column(|p: PropertyText| p.header_signals) + "\n"@
            };
            object::object_text_named(ident, ident_snake, properties, invokables).header
                == "#pragma once\n\n#include \"rust/cxx_qt.h\"\n\nclass "@ + (ident + "Rs"@)
                + ";\n\nclass "@ + ident + " : public QObject {\n    Q_OBJECT\n"@ + column(
                |p: PropertyText| p.header_meta,
            ) + "\n\npublic:\n    explicit "@ + ident + "(QObject *parent = nullptr);\n    ~"@
                + ident + "();\n\n"@ + column(|p: PropertyText| p.header_public) + "\n"@
                + text::joined(invokables.map_values(|i: InvokableText| i.header), "\n"@)
                + "\n\n"@ + slots + "\n"@ + signals + "\n\nprivate:\n    rust::Box<"@ + (ident
                + "Rs"@) + "> m_rustObj;\n};\n\nstd::unique_ptr<"@ + ident + "> new_"@ + ident
                + "();\n"@
        }),
{
    lemma_columns(properties, invokables);
}

/// The source of a class takes in the two files named after it, and defines its
/// constructor, which makes the Rust object, its destructor, its properties and
/// its invokables, and the function that makes an object of the class.
pub proof fn law_sources(
    ident: Seq<char>,
    ident_snake: Seq<char>,
    properties: Seq<PropertyText>,
    invokables: Seq<InvokableText>,
)
    ensures
        object::object_text_named(ident, ident_snake, properties, invokables).source
            == "#include \"cxx-qt-gen/include/"@ + ident_snake
            + ".h\"\n#include \"cxx-qt-gen/src/"@ + ident_snake + ".rs.h\"\n\n"@ + ident + "::"@
            + ident + "(QObject *parent)\n    : QObject(parent)\n    , m_rustObj(create_"@
            + ident_snake + "_rs())\n{\n}\n\n"@ + ident + "::~"@ + ident + "() = default;\n\n"@
            + text::joined(properties.map_values(|p: PropertyText| p.source), "\n"@) + "\n"@
            + text::joined(invokables.map_values(|i: InvokableText| i.source), "\n"@)
            + "\n\nstd::unique_ptr<"@ + ident + "> new_"@ + ident
            + "()\n{\n    return std::make_unique<"@ + ident + ">();\n}\n"@,
{
    lemma_columns(properties, invokables);
}

/// The texts of a list of members, part by part.
proof fn lemma_columns(properties: Seq<PropertyText>, invokables: Seq<InvokableText>)
    ensures
        object::metas(properties) == properties.map_values(|p: PropertyText| p.header_meta),
        object::publics(properties) == properties.map_values(|p: PropertyText| p.header_public),
        object::signals(properties) == properties.map_values(|p: PropertyText| p.header_signals),
        object::slots(properties) == properties.map_values(|p: PropertyText| p.header_slots),
        object::property_sources(properties) == properties.map_values(|p: PropertyText| p.source),
        object::invokable_headers(invokables) == invokables.map_values(
            |i: InvokableText| i.header,
        ),
        object::invokable_sources(invokables) == invokables.map_values(
            |i: InvokableText| i.source,
        ),
{
}

/// The class for an object has the name of the object, is filed under that name
/// in snake case, and has the texts of all properties and invokables of the
/// object, in order.
pub proof fn law_classes_have_all_members(obj: QObjectModel)
    ensures
        object::object_text(obj) == object::object_text_named(
            obj.ident,
            naming::case_converted(obj.ident, NameCase::Snake),
            property::property_texts(obj.ident, obj.properties),
            invokable::invokable_texts(obj.ident, obj.invokables),
        ),
        property::property_texts(obj.ident, obj.properties).len() == obj.properties.len(),
        invokable::invokable_texts(obj.ident, obj.invokables).len() == obj.invokables.len(),
{
}

/// The texts of a class are what its two fields hold.
pub proof fn law_classes_hold_their_texts(cpp_object: CppObject)
    ensures
        cpp_object@ == (ObjectText { header: cpp_object.header@, source: cpp_object.source@ }),
{
}

} // verus!
