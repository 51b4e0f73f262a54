use cxx_qt_gen::cpp_type::{generate_type_cpp, CppType, CppTypes};
use cxx_qt_gen::invokable::generate_invokables_cpp;
use cxx_qt_gen::object::render_qobject;
use cxx_qt_gen::parameter::generate_parameters_cpp;
use cxx_qt_gen::property::generate_properties_cpp;
use cxx_qt_gen::qobject::{Ident, Invokable, Parameter, Property, QObject};
use cxx_qt_gen::{generate_qobject_cpp, CppObject};
use proc_macro2::{Span, TokenStream, TokenTree};

fn ident(text: &str) -> Ident {
    Ident {
        text: text.to_string(),
        span: Span::call_site(),
    }
}

fn parameter(name: &str, type_ident: &str) -> Parameter {
    Parameter {
        ident: ident(name),
        type_ident: ident(type_ident),
    }
}

fn invokable(name: &str, parameters: Vec<Parameter>) -> Invokable {
    Invokable {
        ident: ident(name),
        parameters,
    }
}

fn property(name: &str, type_ident: &str) -> Property {
    Property {
        ident: ident(name),
        type_ident: ident(type_ident),
    }
}

fn object(name: &str, properties: Vec<Property>, invokables: Vec<Invokable>) -> QObject {
    QObject {
        ident: ident(name),
        invokables,
        properties,
    }
}

/// The identifiers of a piece of Rust source, each at its place.
fn idents(source: &str) -> Vec<Ident> {
    let tokens: TokenStream = source.parse().unwrap();
    tokens
        .into_iter()
        .filter_map(|token| match token {
            TokenTree::Ident(ident) => Some(Ident {
                text: ident.to_string(),
                span: ident.span(),
            }),
            _ => None,
        })
        .collect()
}

#[test]
fn strings_become_qstrings() {
    assert_eq!(generate_type_cpp(&ident("str")).unwrap(), CppTypes::String);
    assert_eq!(
        generate_type_cpp(&ident("String")).unwrap(),
        CppTypes::String
    );
    assert_eq!(generate_type_cpp(&ident("i32")).unwrap(), CppTypes::I32);
}

#[test]
fn attributes_of_the_types() {
    assert_eq!(CppTypes::I32.convert_into_cpp(), None);
    assert_eq!(CppTypes::I32.convert_into_rust(), None);
    assert!(!CppTypes::I32.is_const());
    assert!(!CppTypes::I32.is_ref());
    assert_eq!(CppTypes::I32.type_ident(), "int");
    assert_eq!(
        CppTypes::String.convert_into_cpp(),
        Some("rustStringToQString")
    );
    assert_eq!(
        CppTypes::String.convert_into_rust(),
        Some("qStringToRustString")
    );
    assert!(CppTypes::String.is_const());
    assert!(CppTypes::String.is_ref());
    assert_eq!(CppTypes::String.type_ident(), "QString");
}

#[test]
fn unknown_types_are_refused_at_their_place() {
    for name in ["", "string", "I32", "u32", "i32 ", "QString"] {
        let error = generate_type_cpp(&ident(name)).unwrap_err();
        assert_eq!(
            error.message,
            format!("Unknown type ident to convert to C++: {}", name)
        );
    }
    let found = idents("number : bool");
    let error = generate_type_cpp(&found[1]).unwrap_err();
    assert_eq!(error.span.start().column, 9);
    assert_eq!(error.message, "Unknown type ident to convert to C++: bool");
}

#[test]
fn parameters_keep_their_order() {
    let parameters =
        generate_parameters_cpp(&[parameter("a", "i32"), parameter("b", "str")]).unwrap();
    assert_eq!(parameters.len(), 2);
    assert_eq!(parameters[0].ident, "a");
    assert_eq!(parameters[0].type_ident, CppTypes::I32);
    assert_eq!(parameters[1].ident, "b");
    assert_eq!(parameters[1].type_ident, CppTypes::String);
    assert!(generate_parameters_cpp(&[]).unwrap().is_empty());
}

#[test]
fn the_first_unknown_parameter_is_reported() {
    let error = generate_parameters_cpp(&[
        parameter("a", "i32"),
        parameter("b", "u8"),
        parameter("c", "u16"),
    ])
    .unwrap_err();
    assert_eq!(error.message, "Unknown type ident to convert to C++: u8");
}

#[test]
fn invokable_without_parameters() {
    let invokables =
        generate_invokables_cpp(&ident("MyObject"), &[invokable("sayHi", vec![])]).unwrap();
    assert_eq!(invokables.len(), 1);
    assert_eq!(invokables[0].header, "Q_INVOKABLE void sayHi() const;");
    assert_eq!(
        invokables[0].source,
        "void MyObject::sayHi() const\n{\n    m_rustObj->sayHi();\n}"
    );
}

#[test]
fn invokable_with_converted_parameters() {
    let invokables = generate_invokables_cpp(
        &ident("MyObject"),
        &[invokable(
            "sayHi",
            vec![parameter("string", "str"), parameter("number", "i32")],
        )],
    )
    .unwrap();
    assert_eq!(
        invokables[0].header,
        "Q_INVOKABLE void sayHi(const QString& string,  int number) const;"
    );
    assert_eq!(
        invokables[0].source,
        r#"void MyObject::sayHi(const QString& string,  int number) const
{
    m_rustObj->sayHi(qStringToRustString(string), number);
}"#
    );
}

#[test]
fn invokables_stop_at_the_first_unknown_type() {
    let error = generate_invokables_cpp(
        &ident("MyObject"),
        &[
            invokable("a", vec![parameter("x", "i32")]),
            invokable("b", vec![parameter("y", "i32"), parameter("z", "f32")]),
            invokable("c", vec![parameter("w", "u64")]),
        ],
    )
    .unwrap_err();
    assert_eq!(error.message, "Unknown type ident to convert to C++: f32");
}

#[test]
fn property_without_converter() {
    let properties =
        generate_properties_cpp(&ident("MyObject"), &[property("number", "i32")]).unwrap();
    assert_eq!(properties.len(), 1);
    assert_eq!(
        properties[0].header_meta,
        "Q_PROPERTY(int number READ getNumber WRITE setNumber NOTIFY numberChanged)"
    );
    assert_eq!(properties[0].header_public, "int getNumber() const;");
    assert_eq!(properties[0].header_signals, "void numberChanged();");
    assert_eq!(properties[0].header_slots, "void setNumber( int value);");
    assert_eq!(
        properties[0].source,
        r#"int
MyObject::getNumber() const
{
    return m_rustObj->number();
}

void
MyObject::setNumber( int value)
{
    if (value != m_rustObj->number()) {
        m_rustObj->set_number(value);

        Q_EMIT numberChanged();
    }
}
"#
    );
}

#[test]
fn property_with_converter() {
    let properties =
        generate_properties_cpp(&ident("MyObject"), &[property("string", "String")]).unwrap();
    assert_eq!(
        properties[0].header_meta,
        "Q_PROPERTY(QString string READ getString WRITE setString NOTIFY stringChanged)"
    );
    assert_eq!(properties[0].header_public, "QString getString() const;");
    assert_eq!(properties[0].header_signals, "void stringChanged();");
    assert_eq!(
        properties[0].header_slots,
        "void setString(const QString& value);"
    );
    assert_eq!(
        properties[0].source,
        r#"QString
MyObject::getString() const
{
    return rustStringToQString(m_rustObj->string());
}

void
MyObject::setString(const QString& value)
{auto rustValue = qStringToRustString(value);
    if (rustValue != m_rustObj->string()) {
        m_rustObj->set_string(std::move(rustValue));

        Q_EMIT stringChanged();
    }
}
"#
    );
}

#[test]
fn property_of_several_words() {
    let properties =
        generate_properties_cpp(&ident("MyObject"), &[property("opaque_size", "i32")]).unwrap();
    assert_eq!(
        properties[0].header_meta,
        "Q_PROPERTY(int opaque_size READ getOpaque Size WRITE setOpaque Size NOTIFY opaqueSizeChanged)"
    );
    assert!(properties[0].source.contains("m_rustObj->opaque_size()"));
    assert!(properties[0]
        .source
        .contains("m_rustObj->set_opaque_size(value);"));
}

#[test]
fn properties_stop_at_the_first_unknown_type() {
    let error = generate_properties_cpp(
        &ident("MyObject"),
        &[
            property("a", "i32"),
            property("b", "u8"),
            property("c", "u16"),
        ],
    )
    .unwrap_err();
    assert_eq!(error.message, "Unknown type ident to convert to C++: u8");
}

#[test]
fn object_without_members() {
    let cpp_object = generate_qobject_cpp(&object("MyObject", vec![], vec![])).unwrap();
    assert_eq!(
        cpp_object.header,
        r#"#pragma once

#include "rust/cxx_qt.h"

class MyObjectRs;

class MyObject : public QObject {
    Q_OBJECT


public:
    explicit MyObject(QObject *parent = nullptr);
    ~MyObject();







private:
    rust::Box<MyObjectRs> m_rustObj;
};

std::unique_ptr<MyObject> new_MyObject();
"#
    );
    assert_eq!(
        cpp_object.source,
        r#"#include "cxx-qt-gen/include/my_object.h"
#include "cxx-qt-gen/src/my_object.rs.h"

MyObject::MyObject(QObject *parent)
    : QObject(parent)
    , m_rustObj(create_my_object_rs())
{
}

MyObject::~MyObject() = default;




std::unique_ptr<MyObject> new_MyObject()
{
    return std::make_unique<MyObject>();
}
"#
    );
}

#[test]
fn object_with_members() {
    let cpp_object = generate_qobject_cpp(&object(
        "MyObject",
        vec![property("number", "i32"), property("string", "str")],
        vec![
            invokable("say_hi", vec![parameter("number", "i32")]),
            invokable("say_bye", vec![]),
        ],
    ))
    .unwrap();
    assert_eq!(
        cpp_object.header,
        r#"#pragma once

#include "rust/cxx_qt.h"

class MyObjectRs;

class MyObject : public QObject {
    Q_OBJECT
Q_PROPERTY(int number READ getNumber WRITE setNumber NOTIFY numberChanged)
Q_PROPERTY(QString string READ getString WRITE setString NOTIFY stringChanged)

public:
    explicit MyObject(QObject *parent = nullptr);
    ~MyObject();

int getNumber() const;
QString getString() const;
Q_INVOKABLE void say_hi( int number) const;
Q_INVOKABLE void say_bye() const;

public Q_SLOTS:
void setNumber( int value);
void setString(const QString& value);

Q_SIGNALS:
void numberChanged();
void stringChanged();


private:
    rust::Box<MyObjectRs> m_rustObj;
};

std::unique_ptr<MyObject> new_MyObject();
"#
    );
    assert_eq!(
        cpp_object.source,
        r#"#include "cxx-qt-gen/include/my_object.h"
#include "cxx-qt-gen/src/my_object.rs.h"

MyObject::MyObject(QObject *parent)
    : QObject(parent)
    , m_rustObj(create_my_object_rs())
{
}

MyObject::~MyObject() = default;

int
MyObject::getNumber() const
{
    return m_rustObj->number();
}

void
MyObject::setNumber( int value)
{
    if (value != m_rustObj->number()) {
        m_rustObj->set_number(value);

        Q_EMIT numberChanged();
    }
}

QString
MyObject::getString() const
{
    return rustStringToQString(m_rustObj->string());
}

void
MyObject::setString(const QString& value)
{auto rustValue = qStringToRustString(value);
    if (rustValue != m_rustObj->string()) {
        m_rustObj->set_string(std::move(rustValue));

        Q_EMIT stringChanged();
    }
}

void MyObject::say_hi( int number) const
{
    m_rustObj->say_hi(number);
}
void MyObject::say_bye() const
{
    m_rustObj->say_bye();
}

std::unique_ptr<MyObject> new_MyObject()
{
    return std::make_unique<MyObject>();
}
"#
    );
}

#[test]
fn the_snake_name_is_used_for_files_only() {
    let cpp_object = render_qobject("Clock", "wall_clock", &[], &[]);
    assert!(cpp_object
        .source
        .starts_with("#include \"cxx-qt-gen/include/wall_clock.h\"\n"));
    assert!(cpp_object
        .source
        .contains("m_rustObj(create_wall_clock_rs())"));
    assert!(!cpp_object.header.contains("wall_clock"));
}

#[test]
fn properties_fail_before_invokables() {
    let found = idents("x First a y Second");
    let mut found = found.into_iter();
    let mut next = || found.next().unwrap();
    let properties = vec![Property {
        ident: next(),
        type_ident: next(),
    }];
    let invokables = vec![Invokable {
        ident: next(),
        parameters: vec![Parameter {
            ident: next(),
            type_ident: next(),
        }],
    }];
    let error = generate_qobject_cpp(&object("MyObject", properties, invokables)).unwrap_err();
    assert_eq!(error.message, "Unknown type ident to convert to C++: First");
    assert_eq!(error.span.start().column, 2);
}

#[test]
fn unknown_parameter_types_fail_the_object() {
    let error = generate_qobject_cpp(&object(
        "MyObject",
        vec![property("number", "i32")],
        vec![invokable("a", vec![parameter("x", "bool")])],
    ))
    .unwrap_err();
    assert_eq!(error.message, "Unknown type ident to convert to C++: bool");
}

#[test]
fn str_and_string_give_the_same_files() {
    let with = |name: &str| {
        generate_qobject_cpp(&object(
            "MyObject",
            vec![property("a", name)],
            vec![invokable("f", vec![parameter("b", name)])],
        ))
        .unwrap()
    };
    let (a, b) = (with("str"), with("String"));
    assert_eq!(a.header, b.header);
    assert_eq!(a.source, b.source);
}

#[test]
fn members_stand_in_both_files() {
    let make_properties = || vec![property("a", "i32"), property("b", "str")];
    let make_invokables = || vec![invokable("f", vec![]), invokable("g", vec![])];
    let struct_ident = ident("MyObject");
    let properties = generate_properties_cpp(&struct_ident, &make_properties()).unwrap();
    let invokables = generate_invokables_cpp(&struct_ident, &make_invokables()).unwrap();
    let cpp_object =
        generate_qobject_cpp(&object("MyObject", make_properties(), make_invokables())).unwrap();
    for property in &properties {
        assert!(cpp_object.header.contains(&property.header_meta));
        assert!(cpp_object.header.contains(&property.header_public));
        assert!(cpp_object.header.contains(&property.header_signals));
        assert!(cpp_object.header.contains(&property.header_slots));
        assert!(cpp_object.source.contains(&property.source));
    }
    for invokable in &invokables {
        assert!(cpp_object.header.contains(&invokable.header));
        assert!(cpp_object.source.contains(&invokable.source));
    }
}

#[test]
fn places_do_not_change_the_files() {
    let at_call_site = generate_qobject_cpp(&object("A", vec![property("x", "i32")], vec![]));
    let mut found = idents("A x i32").into_iter();
    let elsewhere = generate_qobject_cpp(&QObject {
        ident: found.next().unwrap(),
        properties: vec![Property {
            ident: found.next().unwrap(),
            type_ident: found.next().unwrap(),
        }],
        invokables: vec![],
    });
    let (a, b) = (at_call_site.unwrap(), elsewhere.unwrap());
    assert_eq!(a.header, b.header);
    assert_eq!(a.source, b.source);
}

#[test]
fn names_outside_ascii() {
    let properties =
        generate_properties_cpp(&ident("Größe"), &[property("straßenÄnderung", "i32")]).unwrap();
    assert_eq!(
        properties[0].header_signals,
        "void straßenÄnderungChanged();"
    );
    assert!(properties[0]
        .source
        .contains("m_rustObj->straßen_änderung()"));
}

#[test]
fn a_failing_formatter_leaves_the_files_as_they_are() {
    let make = || CppObject {
        header: "header".to_string(),
        source: "source".to_string(),
    };
    let kept = make().formatted(None, None);
    assert_eq!(kept.header, "header");
    assert_eq!(kept.source, "source");
    let half = make().formatted(Some("laid out".to_string()), None);
    assert_eq!(half.header, "laid out");
    assert_eq!(half.source, "source");
    let other = make().formatted(None, Some("laid out".to_string()));
    assert_eq!(other.header, "header");
    assert_eq!(other.source, "laid out");
}

#[test]
fn the_same_object_gives_the_same_error() {
    let fail = || {
        generate_qobject_cpp(&object(
            "MyObject",
            vec![property("a", "u8"), property("b", "u16")],
            vec![],
        ))
        .unwrap_err()
    };
    assert_eq!(fail().message, fail().message);
    assert_eq!(fail().message, "Unknown type ident to convert to C++: u8");
}

#[test]
fn members_are_translated_one_by_one() {
    let struct_ident = ident("MyObject");
    let both = generate_properties_cpp(
        &struct_ident,
        &[property("a", "i32"), property("b", "str")],
    )
    .unwrap();
    let first = generate_properties_cpp(&struct_ident, &[property("a", "i32")]).unwrap();
    let second = generate_properties_cpp(&struct_ident, &[property("b", "str")]).unwrap();
    assert_eq!(both[0].header_meta, first[0].header_meta);
    assert_eq!(both[0].source, first[0].source);
    assert_eq!(both[1].header_meta, second[0].header_meta);
    assert_eq!(both[1].source, second[0].source);
}

#[test]
fn members_are_implemented_as_declared() {
    let struct_ident = ident("MyObject");
    let invokables = generate_invokables_cpp(
        &struct_ident,
        &[invokable("f", vec![parameter("a", "str")])],
    )
    .unwrap();
    let signature = "f(const QString& a) const";
    assert_eq!(
        invokables[0].header,
        format!("Q_INVOKABLE void {};", signature)
    );
    assert!(invokables[0]
        .source
        .starts_with(&format!("void MyObject::{}\n", signature)));
    let properties = generate_properties_cpp(&struct_ident, &[property("a", "str")]).unwrap();
    assert_eq!(
        properties[0].header_slots,
        "void setA(const QString& value);"
    );
    assert!(properties[0]
        .source
        .contains("void\nMyObject::setA(const QString& value)\n"));
}
