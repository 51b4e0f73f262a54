use cxx_qt_gen::format::{style_or_default, ClangFormatStyle};
use cxx_qt_gen::generate_format;
use cxx_qt_gen::naming::{setter_ident, snake_case, PropertyNames};
use cxx_qt_gen::text::join;

#[test]
fn the_style_is_set_once() {
    assert_eq!(generate_format(None), Ok(()));
    assert_eq!(
        clang_format::CLANG_FORMAT_STYLE.get(),
        Some(&clang_format::ClangFormatStyle::Mozilla)
    );
    assert_eq!(
        generate_format(Some(ClangFormatStyle::Google)),
        Err(ClangFormatStyle::Google)
    );
    assert_eq!(generate_format(None), Err(ClangFormatStyle::Mozilla));
    assert_eq!(
        clang_format::CLANG_FORMAT_STYLE.get(),
        Some(&clang_format::ClangFormatStyle::Mozilla)
    );
}

#[test]
fn the_given_style_goes_before_the_default() {
    assert_eq!(style_or_default(None), ClangFormatStyle::Mozilla);
    assert_eq!(
        style_or_default(Some(ClangFormatStyle::WebKit)),
        ClangFormatStyle::WebKit
    );
}

#[test]
fn names_of_a_property() {
    let names = PropertyNames::new("fileName");
    assert_eq!(names.getter, "getFile Name");
    assert_eq!(names.getter_rust, "file_name");
    assert_eq!(names.setter, "setFile Name");
    assert_eq!(names.setter_rust, "set_file_name");
    assert_eq!(names.changed, "fileNameChanged");
}

#[test]
fn names_from_given_cases() {
    assert_eq!(setter_ident("Size"), "setSize");
    let names = PropertyNames::from_cases("T", "s", "c", "x");
    assert_eq!(names.getter, "getT");
    assert_eq!(names.getter_rust, "s");
    assert_eq!(names.setter, "setT");
    assert_eq!(names.setter_rust, "x");
    assert_eq!(names.changed, "cChanged");
}

#[test]
fn snake_case_of_a_struct() {
    assert_eq!(snake_case("MyObject"), "my_object");
    assert_eq!(snake_case(""), "");
}

#[test]
fn joined_strings() {
    let items = |texts: &[&str]| texts.iter().map(|t| t.to_string()).collect::<Vec<String>>();
    assert_eq!(join(&items(&[]), ", "), "");
    assert_eq!(join(&items(&["a"]), ", "), "a");
    assert_eq!(join(&items(&["a", "", "b"]), ", "), "a, , b");
}
