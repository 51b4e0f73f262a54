//! What holds of the C++ side as a whole.
use crate::cpp_type;
use crate::cpp_type::{CppType, CppTypes, GenerateError};
use crate::invokable;
use crate::naming::PropertyNamesModel;
use crate::object;
use crate::parameter;
use crate::property;
use crate::qobject;
use crate::qobject::{Ident, Invokable, QObject, QObjectModel};
use crate::text;
use vstd::prelude::*;

verus! {

/// A type is an input by const reference exactly if it is converted on its
/// way into C++, and exactly if it is converted on its way into Rust.
pub proof fn law_converted_types_are_const_references(t: CppTypes)
    ensures
        t.const_input() == t.ref_input(),
        t.const_input() == t.cpp_converter() is Some,
        t.const_input() == t.rust_converter() is Some,
{
}

/// Every property of an object is declared in the header, by its meta
/// definition, its getter, its setter and its signal, and is implemented in
/// the source.
pub proof fn law_properties_are_declared_and_implemented(obj: QObjectModel, i: int)
    requires
        0 <= i < obj.properties.len(),
    ensures
        ({
            let property = property::property_text(obj.ident, obj.properties[i]);
            let object = object::object_text(obj);
            &&& text::occurs_in(property.header_meta, object.header)
            &&& text::occurs_in(property.header_public, object.header)
            &&& text::occurs_in(property.header_signals, object.header)
            &&& text::occurs_in(property.header_slots, object.header)
            &&& text::occurs_in(property.source, object.source)
        }),
{
    broadcast use {text::lemma_occurs_in_front, text::lemma_occurs_in_back};

    let properties = property::property_texts(obj.ident, obj.properties);
    text::lemma_item_occurs_in_joined(object::metas(properties), "\n"@, i);
    text::lemma_item_occurs_in_joined(object::publics(properties), "\n"@, i);
    text::lemma_item_occurs_in_joined(object::signals(properties), "\n"@, i);
    text::lemma_item_occurs_in_joined(object::slots(properties), "\n"@, i);
    text::lemma_item_occurs_in_joined(object::property_sources(properties), "\n"@, i);
}

/// Every invokable of an object is declared in the header and implemented in
/// the source.
pub proof fn law_invokables_are_declared_and_implemented(obj: QObjectModel, i: int)
    requires
        0 <= i < obj.invokables.len(),
    ensures
        ({
            let invokable = invokable::invokable_text(obj.ident, obj.invokables[i]);
            let object = object::object_text(obj);
            &&& text::occurs_in(invokable.header, object.header)
            &&& text::occurs_in(invokable.source, object.source)
        }),
{
    broadcast use {text::lemma_occurs_in_front, text::lemma_occurs_in_back};

    let invokables = invokable::invokable_texts(obj.ident, obj.invokables);
    text::lemma_item_occurs_in_joined(object::invokable_headers(invokables), "\n"@, i);
    text::lemma_item_occurs_in_joined(object::invokable_sources(invokables), "\n"@, i);
}

/// Two C++ types never share a name.
pub proof fn law_type_names_are_distinct(a: CppTypes, b: CppTypes)
    requires
        a.cpp_name() == b.cpp_name(),
    ensures
        a == b,
{
    reveal_strlit("int");
    reveal_strlit("QString");
    assert("int"@.len() != "QString"@.len());
}

/// An object is translated exactly if the type of every property and the type
/// of every parameter of every invokable is known.
pub proof fn law_objects_translate_if_all_types_are_known(obj: QObject)
    ensures
        cpp_type::all_known(qobject::object_types(obj)) <==> {
            &&& forall|i: int|
                0 <= i < obj.properties@.len() ==> cpp_type::known_type(
                    (#[trigger] obj.properties@[i]).type_ident@,
                )
            &&& forall|i: int, j: int|
                0 <= i < obj.invokables@.len() && 0 <= j < obj.invokables@[i].parameters@.len()
                    ==> cpp_type::known_type(
                    (#[trigger] obj.invokables@[i].parameters@[j]).type_ident@,
                )
        },
{
    let property_types = qobject::property_types(obj.properties@);
    cpp_type::lemma_all_known_append(property_types, qobject::invokable_types(obj.invokables@));
    lemma_invokable_types_known(obj.invokables@);
    if cpp_type::all_known(property_types) {
        assert forall|i: int| 0 <= i < obj.properties@.len() implies cpp_type::known_type(
            (#[trigger] obj.properties@[i]).type_ident@,
        ) by {
            assert(property_types[i] == obj.properties@[i].type_ident);
        }
    }
}

/// The types of a list of invokables are all known exactly if those of each
/// invokable are.
proof fn lemma_invokable_types_known(invokables: Seq<Invokable>)
    ensures
        cpp_type::all_known(qobject::invokable_types(invokables)) <==> (forall|i: int, j: int|
            0 <= i < invokables.len() && 0 <= j < invokables[i].parameters@.len()
                ==> cpp_type::known_type((#[trigger] invokables[i].parameters@[j]).type_ident@)),
    decreases invokables.len(),
{
    if invokables.len() > 0 {
        let shorter = invokables.drop_last();
        let last = invokables.last().parameters@;
        let last_types = qobject::parameter_types(last);
        lemma_invokable_types_known(shorter);
        cpp_type::lemma_all_known_append(qobject::invokable_types(shorter), last_types);
        if cpp_type::all_known(qobject::invokable_types(invokables)) {
            assert forall|i: int, j: int|
                0 <= i < invokables.len() && 0 <= j
                    < invokables[i].parameters@.len() implies cpp_type::known_type(
                (#[trigger] invokables[i].parameters@[j]).type_ident@,
            ) by {
                if i < shorter.len() {
                    assert(shorter[i].parameters@[j] == invokables[i].parameters@[j]);
                } else {
                    assert(last_types[j] == last[j].type_ident);
                }
            }
        } else if cpp_type::all_known(qobject::invokable_types(shorter)) {
            let j = choose|j: int|
                0 <= j < last_types.len() && !cpp_type::known_type(#[trigger] last_types[j]@);
            assert(invokables[invokables.len() - 1].parameters@[j] == last[j]);
        } else {
            let (i, j) = choose|i: int, j: int|
                0 <= i < shorter.len() && 0 <= j < shorter[i].parameters@.len()
                    && !cpp_type::known_type((#[trigger] shorter[i].parameters@[j]).type_ident@);
            assert(invokables[i].parameters@[j] == shorter[i].parameters@[j]);
        }
    }
}

/// An object that cannot be translated has one error: the message and the
/// place are settled by the object.
pub proof fn law_the_error_is_determined(obj: QObject, a: GenerateError, b: GenerateError)
    requires
        cpp_type::reports_first_unknown(a, qobject::object_types(obj)),
        cpp_type::reports_first_unknown(b, qobject::object_types(obj)),
    ensures
        a.span == b.span,
        a.message@ == b.message@,
{
    let types = qobject::object_types(obj);
    let i = choose|i: int| #[trigger] cpp_type::first_unknown(types, i) && a.reports(types[i]);
    let j = choose|j: int| #[trigger] cpp_type::first_unknown(types, j) && b.reports(types[j]);
    if i < j {
        assert(types.take(j)[i] == types[i]);
    } else if j < i {
        assert(types.take(i)[j] == types[j]);
    }
}

/// The message of an error tells which type could not be translated.
pub proof fn law_messages_name_the_type(a: Seq<char>, b: Seq<char>)
    requires
        cpp_type::unknown_type_message(a) == cpp_type::unknown_type_message(b),
    ensures
        a == b,
{
    let prefix = "Unknown type ident to convert to C++: "@;
    assert(a == (prefix + a).skip(prefix.len() as int));
    assert(b == (prefix + b).skip(prefix.len() as int));
}

/// Where an object stands in the Rust source does not matter: of two objects
/// that say the same, either both are translated or neither, and the same type
/// is the first that is not known. The texts are settled by what is said.
pub proof fn law_places_do_not_matter(a: QObject, b: QObject, i: int)
    requires
        a@ == b@,
    ensures
        cpp_type::all_known(qobject::object_types(a)) == cpp_type::all_known(
            qobject::object_types(b),
        ),
        cpp_type::first_unknown(qobject::object_types(a), i) == cpp_type::first_unknown(
            qobject::object_types(b),
            i,
        ),
{
    let (a_properties, b_properties) = (a.properties@, b.properties@);
    let a_types = qobject::property_types(a_properties);
    let b_types = qobject::property_types(b_properties);
    assert(a_properties.len() == b@.properties.len());
    assert forall|k: int| 0 <= k < a_types.len() implies #[trigger] a_types[k]@ == b_types[k]@ by {
        assert(a_properties[k]@ == a@.properties[k]);
        assert(b_properties[k]@ == b@.properties[k]);
    }
    lemma_same_invokables_same_types(a.invokables@, b.invokables@);
    let (a_all, b_all) = (qobject::object_types(a), qobject::object_types(b));
    assert(a_all.len() == b_all.len());
    assert forall|k: int| 0 <= k < a_all.len() implies #[trigger] a_all[k]@ == b_all[k]@ by {
        if k < a_types.len() {
            assert(a_all[k] == a_types[k]);
        } else {
            let behind = k - a_types.len();
            assert(a_all[k] == qobject::invokable_types(a.invokables@)[behind]);
            assert(b_all[k] == qobject::invokable_types(b.invokables@)[behind]);
        }
    }
    lemma_same_texts_same_known(a_all, b_all);
    if 0 <= i < a_all.len() {
        lemma_same_texts_same_known(a_all.take(i), b_all.take(i));
    }
}

/// Lists of identifiers with the same texts are known alike.
proof fn lemma_same_texts_same_known(a: Seq<Ident>, b: Seq<Ident>)
    requires
        a.len() == b.len(),
        forall|k: int| 0 <= k < a.len() ==> #[trigger] a[k]@ == b[k]@,
    ensures
        cpp_type::all_known(a) == cpp_type::all_known(b),
{
    assert forall|k: int| 0 <= k < b.len() implies #[trigger] b[k]@ == a[k]@ by {
        assert(a[k]@ == b[k]@);
    }
}

/// Invokables that say the same have types with the same texts.
proof fn lemma_same_invokables_same_types(a: Seq<Invokable>, b: Seq<Invokable>)
    requires
        qobject::invokable_models(a) == qobject::invokable_models(b),
    ensures
        qobject::invokable_types(a).len() == qobject::invokable_types(b).len(),
        forall|k: int|
            0 <= k < qobject::invokable_types(a).len() ==> #[trigger] qobject::invokable_types(
                a,
            )[k]@ == qobject::invokable_types(b)[k]@,
    decreases a.len(),
{
    assert(a.len() == qobject::invokable_models(b).len());
    if a.len() > 0 {
        let (a_shorter, b_shorter) = (a.drop_last(), b.drop_last());
        assert(qobject::invokable_models(a_shorter) == qobject::invokable_models(a).drop_last());
        assert(qobject::invokable_models(b_shorter) == qobject::invokable_models(b).drop_last());
        lemma_same_invokables_same_types(a_shorter, b_shorter);
        let (a_last, b_last) = (a.last().parameters@, b.last().parameters@);
        assert(qobject::invokable_models(a).last() == a.last()@);
        assert(qobject::invokable_models(b).last() == b.last()@);
        assert(qobject::parameter_models(a_last) == qobject::parameter_models(b_last));
        assert(a_last.len() == qobject::parameter_models(b_last).len());
        assert forall|k: int| 0 <= k < a_last.len() implies #[trigger] qobject::parameter_types(
            a_last,
        )[k]@ == qobject::parameter_types(b_last)[k]@ by {
            assert(qobject::parameter_models(a_last)[k] == a_last[k]@);
            assert(qobject::parameter_models(b_last)[k] == b_last[k]@);
        }
    }
}

/// Whether two lists of parameters have the same names, and types that
/// translate alike.
pub open spec fn same_parameters(
    a: Seq<qobject::ParameterModel>,
    b: Seq<qobject::ParameterModel>,
) -> bool {
    &&& a.len() == b.len()
    &&& forall|i: int|
        0 <= i < a.len() ==> {
            &&& (#[trigger] a[i]).ident == b[i].ident
            &&& cpp_type::cpp_type(a[i].type_ident) == cpp_type::cpp_type(b[i].type_ident)
        }
}

/// Whether two objects have the same names, and types that translate alike.
pub open spec fn same_in_cpp(a: QObjectModel, b: QObjectModel) -> bool {
    &&& a.ident == b.ident
    &&& a.properties.len() == b.properties.len()
    &&& forall|i: int|
        0 <= i < a.properties.len() ==> {
            &&& (#[trigger] a.properties[i]).ident == b.properties[i].ident
            &&& cpp_type::cpp_type(a.properties[i].type_ident) == cpp_type::cpp_type(
                b.properties[i].type_ident,
            )
        }
    &&& a.invokables.len() == b.invokables.len()
    &&& forall|i: int|
        0 <= i < a.invokables.len() ==> {
            &&& (#[trigger] a.invokables[i]).ident == b.invokables[i].ident
            &&& same_parameters(a.invokables[i].parameters, b.invokables[i].parameters)
        }
}

/// The C++ side depends on a Rust type only through the C++ type that it
/// translates into: objects that differ in nothing else, such as `str` in
/// place of `String`, have the same texts.
pub proof fn law_types_matter_as_translated(a: QObjectModel, b: QObjectModel)
    requires
        same_in_cpp(a, b),
    ensures
        object::object_text(a) == object::object_text(b),
{
    assert(property::property_texts(a.ident, a.properties) == property::property_texts(
        b.ident,
        b.properties,
    ));
    assert forall|i: int| 0 <= i < a.invokables.len() implies invokable::invokable_text(
        a.ident,
        #[trigger] a.invokables[i],
    ) == invokable::invokable_text(b.ident, b.invokables[i]) by {
        assert(parameter::translated(a.invokables[i].parameters) == parameter::translated(
            b.invokables[i].parameters,
        ));
    }
    assert(invokable::invokable_texts(a.ident, a.invokables) == invokable::invokable_texts(
        b.ident,
        b.invokables,
    ));
}

/// Objects that are the same in C++ terms are translated alike: both or
/// neither.
pub proof fn law_types_decide_as_translated(a: QObject, b: QObject)
    requires
        same_in_cpp(a@, b@),
    ensures
        cpp_type::all_known(qobject::object_types(a)) == cpp_type::all_known(
            qobject::object_types(b),
        ),
{
    assert(same_in_cpp(b@, a@)) by {
        let (a, b) = (a@, b@);
        assert forall|i: int| 0 <= i < b.properties.len() implies {
            &&& (#[trigger] b.properties[i]).ident == a.properties[i].ident
            &&& cpp_type::cpp_type(b.properties[i].type_ident) == cpp_type::cpp_type(
                a.properties[i].type_ident,
            )
        } by {
            assert(a.properties[i].ident == b.properties[i].ident);
        }
        assert forall|i: int| 0 <= i < b.invokables.len() implies {
            &&& (#[trigger] b.invokables[i]).ident == a.invokables[i].ident
            &&& same_parameters(b.invokables[i].parameters, a.invokables[i].parameters)
        } by {
            assert(a.invokables[i].ident == b.invokables[i].ident);
            let (mine, yours) = (a.invokables[i].parameters, b.invokables[i].parameters);
            assert forall|j: int| 0 <= j < yours.len() implies {
                &&& (#[trigger] yours[j]).ident == mine[j].ident
                &&& cpp_type::cpp_type(yours[j].type_ident) == cpp_type::cpp_type(
                    mine[j].type_ident,
                )
            } by {
                assert(mine[j].ident == yours[j].ident);
            }
        }
    }
    lemma_types_known_as_translated(a, b);
    lemma_types_known_as_translated(b, a);
}

/// If one of two objects that are the same in C++ terms is translated, so is
/// the other.
proof fn lemma_types_known_as_translated(a: QObject, b: QObject)
    requires
        same_in_cpp(a@, b@),
    ensures
        cpp_type::all_known(qobject::object_types(a)) ==> cpp_type::all_known(
            qobject::object_types(b),
        ),
{
    law_objects_translate_if_all_types_are_known(a);
    law_objects_translate_if_all_types_are_known(b);
    if cpp_type::all_known(qobject::object_types(a)) {
        assert forall|i: int| 0 <= i < b.properties@.len() implies cpp_type::known_type(
            (#[trigger] b.properties@[i]).type_ident@,
        ) by {
            assert(b@.properties[i] == b.properties@[i]@);
            assert(a@.properties[i] == a.properties@[i]@);
        }
        assert forall|i: int, j: int|
            0 <= i < b.invokables@.len() && 0 <= j
                < b.invokables@[i].parameters@.len() implies cpp_type::known_type(
            (#[trigger] b.invokables@[i].parameters@[j]).type_ident@,
        ) by {
            assert(b@.invokables[i] == b.invokables@[i]@);
            assert(a@.invokables[i] == a.invokables@[i]@);
            assert(b@.invokables[i].parameters[j] == b.invokables@[i].parameters@[j]@);
            assert(a@.invokables[i].parameters[j] == a.invokables@[i].parameters@[j]@);
        }
    }
}

/// A header has a part for signals and a part for slots exactly if the object
/// has properties.
pub proof fn law_sections_need_properties(properties: Seq<property::PropertyText>)
    ensures
        object::signal_section(properties).len() == 0 <==> properties.len() == 0,
        object::slot_section(properties).len() == 0 <==> properties.len() == 0,
{
    reveal_strlit("");
    assert(""@.len() == 0);
    reveal_strlit("Q_SIGNALS:\n");
    reveal_strlit("public Q_SLOTS:\n");
    assert("Q_SIGNALS:\n"@.len() > 0);
    assert("public Q_SLOTS:\n"@.len() > 0);
}

/// Members are translated one by one: what a property or an invokable becomes
/// does not depend on the members beside it, and the order is kept.
pub proof fn law_members_are_translated_one_by_one(
    struct_ident: Seq<char>,
    properties: Seq<qobject::PropertyModel>,
    more_properties: Seq<qobject::PropertyModel>,
    invokables: Seq<qobject::InvokableModel>,
    more_invokables: Seq<qobject::InvokableModel>,
)
    ensures
        property::property_texts(struct_ident, properties + more_properties)
            == property::property_texts(struct_ident, properties) + property::property_texts(
            struct_ident,
            more_properties,
        ),
        invokable::invokable_texts(struct_ident, invokables + more_invokables)
            == invokable::invokable_texts(struct_ident, invokables) + invokable::invokable_texts(
            struct_ident,
            more_invokables,
        ),
{
}

/// The signature of an invokable, without its return type.
pub open spec fn invokable_signature(
    ident: Seq<char>,
    parameters: Seq<parameter::CppParameterModel>,
) -> Seq<char> {
    ident + "("@ + parameter::argument_line(parameters) + ") const"@
}

/// An invokable is implemented in the source with the signature that the
/// header declares.
pub proof fn law_invokables_are_implemented_as_declared(
    struct_ident: Seq<char>,
    ident: Seq<char>,
    parameters: Seq<parameter::CppParameterModel>,
)
    ensures
        ({
            let signature = invokable_signature(ident, parameters);
            &&& invokable::invokable_header(ident, parameters) == "Q_INVOKABLE void "@ + signature
                + ";"@
            &&& invokable::invokable_source(struct_ident, ident, parameters) == "void "@
                + struct_ident + "::"@ + signature + "\n{\n    m_rustObj->"@ + ident + "("@
                + parameter::handed_on_line(parameters) + ");\n}"@
        }),
{
    reveal_strlit(") const");
    reveal_strlit(";");
    reveal_strlit(") const;");
    assert(") const;"@ == ") const"@ + ";"@);
    reveal_strlit("\n{\n    m_rustObj->");
    reveal_strlit(") const\n{\n    m_rustObj->");
    assert(") const\n{\n    m_rustObj->"@ == ") const"@ + "\n{\n    m_rustObj->"@);
}

/// The methods of a property are implemented in the source with the
/// signatures that the header declares, and they are the methods that the meta
/// definition of the property names.
pub proof fn law_properties_are_implemented_as_declared(
    struct_ident: Seq<char>,
    ident: Seq<char>,
    t: CppTypes,
    names: PropertyNamesModel,
)
    ensures
        ({
            let property = property::property_text_named(struct_ident, ident, t, names);
            let getter = names.getter + "() const"@;
            let setter = names.setter + "("@ + parameter::argument(t, "value"@) + ")"@;
            &&& property.header_public == t.cpp_name() + " "@ + getter + ";"@
            &&& property.header_slots == "void "@ + setter + ";"@
            &&& text::occurs_in(
                t.cpp_name() + "\n"@ + struct_ident + "::"@ + getter,
                property.source,
            )
            &&& text::occurs_in("void\n"@ + struct_ident + "::"@ + setter, property.source)
            &&& text::occurs_in(" READ "@ + names.getter, property.header_meta)
            &&& text::occurs_in(" WRITE "@ + names.setter, property.header_meta)
            &&& text::occurs_in(" NOTIFY "@ + names.changed, property.header_meta)
            &&& text::occurs_in(names.changed, property.header_signals)
        }),
{
    broadcast use {text::lemma_occurs_in_front, text::lemma_occurs_in_back};

    let property = property::property_text_named(struct_ident, ident, t, names);
    let getter = names.getter + "() const"@;
    let setter = names.setter + "("@ + parameter::argument(t, "value"@) + ")"@;
    reveal_strlit(";");

    reveal_strlit("() const");
    reveal_strlit("() const;");
    assert("() const;"@ == "() const"@ + ";"@);
    reveal_strlit("\n{\n    ");
    reveal_strlit("() const\n{\n    ");
    assert("() const\n{\n    "@ == "() const"@ + "\n{\n    "@);
    let getter_head = t.cpp_name() + "\n"@ + struct_ident + "::"@ + getter;
    assert(property::getter_definition(struct_ident, t, names) == getter_head + ("\n{\n    "@
        + property::getter_statement(t, names) + "\n}"@));
    text::lemma_occurs_in_self(getter_head);

    reveal_strlit(")");
    reveal_strlit(");");
    assert(");"@ == ")"@ + ";"@);
    reveal_strlit("\n{");
    reveal_strlit(")\n{");
    assert(")\n{"@ == ")"@ + "\n{"@);
    let setter_head = "void\n"@ + struct_ident + "::"@ + setter;
    assert("void\n"@ + struct_ident + "::"@ + names.setter + "("@ + parameter::argument(t, "value"@)
        + ")\n{"@ == setter_head + "\n{"@);
    text::lemma_occurs_in_self(setter_head);

    let front = "Q_PROPERTY("@ + t.cpp_name() + " "@ + ident;
    let read = " READ "@ + names.getter;
    let write = " WRITE "@ + names.setter;
    let notify = " NOTIFY "@ + names.changed;
    assert(property.header_meta == front + read + write + notify + ")"@);
    text::lemma_occurs_in_self(read);
    text::lemma_occurs_in_self(write);
    text::lemma_occurs_in_self(notify);
    text::lemma_occurs_in_self(names.changed);
}

/// The constructor of a class, its destructor and the function that makes an
/// object of it are declared in the header and defined in the source: the
/// constructor makes the Rust object, and the function makes an object of that
/// same class.
pub proof fn law_class_members_are_declared_and_defined(
    ident: Seq<char>,
    ident_snake: Seq<char>,
    properties: Seq<property::PropertyText>,
    invokables: Seq<invokable::InvokableText>,
)
    ensures
        ({
            let object = object::object_text_named(ident, ident_snake, properties, invokables);
            let factory = "std::unique_ptr<"@ + ident + "> new_"@ + ident + "()"@;
            &&& text::occurs_in(
                "explicit "@ + ident + "(QObject *parent = nullptr);"@,
                object.header,
            )
            &&& text::occurs_in(ident + "::"@ + ident + "(QObject *parent)"@, object.source)
            &&& text::occurs_in("~"@ + ident + "();"@, object.header)
            &&& text::occurs_in(ident + "::~"@ + ident + "() = default;"@, object.source)
            &&& text::occurs_in(factory + ";"@, object.header)
            &&& text::occurs_in(factory, object.source)
            &&& text::occurs_in(
                factory + "\n{\n    return std::make_unique<"@ + ident + ">();\n}"@,
                object.source,
            )
            &&& text::occurs_in("m_rustObj(create_"@ + ident_snake + "_rs())"@, object.source)
        }),
{
    lemma_class_members_are_declared(ident, properties, invokables);
    lemma_class_members_are_defined(ident, ident_snake, properties, invokables);
}

/// The members of every class are declared in its header.
proof fn lemma_class_members_are_declared(
    ident: Seq<char>,
    properties: Seq<property::PropertyText>,
    invokables: Seq<invokable::InvokableText>,
)
    ensures
        ({
            let header = object::object_header(ident, properties, invokables);
            let factory = "std::unique_ptr<"@ + ident + "> new_"@ + ident + "()"@;
            &&& text::occurs_in("explicit "@ + ident + "(QObject *parent = nullptr);"@, header)
            &&& text::occurs_in("~"@ + ident + "();"@, header)
            &&& text::occurs_in(factory + ";"@, header)
        }),
{
    broadcast use {text::lemma_occurs_in_front, text::lemma_occurs_in_back};

    let front =
        "#pragma once\n\n#include \"rust/cxx_qt.h\"\n\nclass "@ + object::rust_struct(ident)
        + ";\n\nclass "@ + ident + " : public QObject {\n    Q_OBJECT\n"@ + text::lines(
        object::metas(properties),
    );
    let constructor = "explicit "@ + ident + "(QObject *parent = nullptr);"@;
    let destructor = "~"@ + ident + "();"@;
    reveal_strlit("explicit ");
    reveal_strlit("\n\npublic:\n    ");
    reveal_strlit("\n\npublic:\n    explicit ");
    assert("\n\npublic:\n    explicit "@ == "\n\npublic:\n    "@ + "explicit "@);
    reveal_strlit("(QObject *parent = nullptr);");
    reveal_strlit("\n    ");
    reveal_strlit("~");
    reveal_strlit("(QObject *parent = nullptr);\n    ~");
    assert("(QObject *parent = nullptr);\n    ~"@ == "(QObject *parent = nullptr);"@ + "\n    "@
        + "~"@);
    reveal_strlit("();");
    reveal_strlit("\n\n");
    reveal_strlit("();\n\n");
    assert("();\n\n"@ == "();"@ + "\n\n"@);
    let members = front + "\n\npublic:\n    "@ + constructor + "\n    "@ + destructor + "\n\n"@;
    assert(front + "\n\npublic:\n    explicit "@ + ident + "(QObject *parent = nullptr);\n    ~"@
        + ident + "();\n\n"@ == members);
    text::lemma_occurs_in_self(constructor);
    text::lemma_occurs_in_self(destructor);
    assert(text::occurs_in(constructor, members));
    assert(text::occurs_in(destructor, members));

    let class = members + text::lines(object::publics(properties)) + "\n"@ + text::lines(
        object::invokable_headers(invokables),
    ) + "\n\n"@ + object::slot_section(properties) + "\n"@ + object::signal_section(properties)
        + "\n\nprivate:\n    rust::Box<"@ + object::rust_struct(ident);
    let factory = "std::unique_ptr<"@ + ident + "> new_"@ + ident + "()"@;
    reveal_strlit("std::unique_ptr<");
    reveal_strlit("> m_rustObj;\n};\n\n");
    reveal_strlit("> m_rustObj;\n};\n\nstd::unique_ptr<");
    assert("> m_rustObj;\n};\n\nstd::unique_ptr<"@ == "> m_rustObj;\n};\n\n"@
        + "std::unique_ptr<"@);
    reveal_strlit("()");
    reveal_strlit(";");
    reveal_strlit("\n");
    reveal_strlit("();\n");
    assert("();\n"@ == "()"@ + ";"@ + "\n"@);
    assert(object::object_header(ident, properties, invokables) == class
        + "> m_rustObj;\n};\n\n"@ + (factory + ";"@) + "\n"@);
    text::lemma_occurs_in_self(factory + ";"@);
}

/// The members of every class are defined in its source.
proof fn lemma_class_members_are_defined(
    ident: Seq<char>,
    ident_snake: Seq<char>,
    properties: Seq<property::PropertyText>,
    invokables: Seq<invokable::InvokableText>,
)
    ensures
        ({
            let source = object::object_source(ident, ident_snake, properties, invokables);
            let factory = "std::unique_ptr<"@ + ident + "> new_"@ + ident + "()"@;
            &&& text::occurs_in(ident + "::"@ + ident + "(QObject *parent)"@, source)
            &&& text::occurs_in(ident + "::~"@ + ident + "() = default;"@, source)
            &&& text::occurs_in(factory, source)
            &&& text::occurs_in(
                factory + "\n{\n    return std::make_unique<"@ + ident + ">();\n}"@,
                source,
            )
            &&& text::occurs_in("m_rustObj(create_"@ + ident_snake + "_rs())"@, source)
        }),
{
    broadcast use {text::lemma_occurs_in_front, text::lemma_occurs_in_back};

    let front = "#include \"cxx-qt-gen/include/"@ + ident_snake
        + ".h\"\n#include \"cxx-qt-gen/src/"@ + ident_snake + ".rs.h\"\n\n"@;
    let constructor = ident + "::"@ + ident + "(QObject *parent)"@;
    reveal_strlit("(QObject *parent)");
    reveal_strlit("\n    : QObject(parent)\n    , m_rustObj(create_");
    reveal_strlit("(QObject *parent)\n    : QObject(parent)\n    , m_rustObj(create_");
    assert("(QObject *parent)\n    : QObject(parent)\n    , m_rustObj(create_"@
        == "(QObject *parent)"@ + "\n    : QObject(parent)\n    , m_rustObj(create_"@);
    let opened = front + constructor + "\n    : QObject(parent)\n    , m_rustObj(create_"@;
    assert(front + ident + "::"@ + ident
        + "(QObject *parent)\n    : QObject(parent)\n    , m_rustObj(create_"@ == opened);
    text::lemma_occurs_in_self(constructor);
    assert(text::occurs_in(constructor, opened));

    let constructed = opened + ident_snake + "_rs())\n{\n}\n\n"@;
    let created = "m_rustObj(create_"@ + ident_snake + "_rs())"@;
    reveal_strlit("m_rustObj(create_");
    reveal_strlit("\n    : QObject(parent)\n    , ");
    assert("\n    : QObject(parent)\n    , m_rustObj(create_"@ == "\n    : QObject(parent)\n    , "@
        + "m_rustObj(create_"@);
    reveal_strlit("_rs())");
    reveal_strlit("\n{\n}\n\n");
    reveal_strlit("_rs())\n{\n}\n\n");
    assert("_rs())\n{\n}\n\n"@ == "_rs())"@ + "\n{\n}\n\n"@);
    assert(constructed == front + constructor + "\n    : QObject(parent)\n    , "@ + created
        + "\n{\n}\n\n"@);
    text::lemma_occurs_in_self(created);
    assert(text::occurs_in(created, constructed));
    let destructor = ident + "::~"@ + ident + "() = default;"@;
    reveal_strlit("() = default;");
    reveal_strlit("\n\n");
    reveal_strlit("() = default;\n\n");
    assert("() = default;\n\n"@ == "() = default;"@ + "\n\n"@);
    let destructed = constructed + destructor + "\n\n"@;
    assert(constructed + ident + "::~"@ + ident + "() = default;\n\n"@ == destructed);
    text::lemma_occurs_in_self(destructor);
    assert(text::occurs_in(destructor, destructed));

    let members = destructed + text::lines(object::property_sources(properties)) + "\n"@
        + text::lines(object::invokable_sources(invokables));
    let factory = "std::unique_ptr<"@ + ident + "> new_"@ + ident + "()"@;
    reveal_strlit("std::unique_ptr<");
    reveal_strlit("\n\nstd::unique_ptr<");
    assert("\n\nstd::unique_ptr<"@ == "\n\n"@ + "std::unique_ptr<"@);
    reveal_strlit("()");
    reveal_strlit("\n{\n    return std::make_unique<");
    reveal_strlit("()\n{\n    return std::make_unique<");
    assert("()\n{\n    return std::make_unique<"@ == "()"@ + "\n{\n    return std::make_unique<"@);
    reveal_strlit("\n");
    reveal_strlit(">();\n}");
    reveal_strlit(">();\n}\n");
    assert(">();\n}\n"@ == ">();\n}"@ + "\n"@);
    let made = factory + "\n{\n    return std::make_unique<"@ + ident + ">();\n}"@;
    assert(object::object_source(ident, ident_snake, properties, invokables) == members + "\n\n"@
        + made + "\n"@);
    text::lemma_occurs_in_self(factory);
    text::lemma_occurs_in_self(made);
}

} // verus!
