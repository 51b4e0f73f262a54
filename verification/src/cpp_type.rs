//! The C++ types that Rust types translate into.
use crate::qobject::Ident;
use proc_macro2::Span;
use vstd::prelude::*;

verus! {

/// Describes a C++ type
#[derive(Debug, Clone, Copy, PartialEq, Eq, Structural)]
pub enum CppTypes {
    String,
    I32,
}

/// A trait which CppTypes implements allowing retrieval of attributes of the enum value.
pub trait CppType {
    /// The name of the converter into C++, if the type has one.
    spec fn cpp_converter(&self) -> Option<Seq<char>>;

    /// The name of the converter into Rust, if the type has one.
    spec fn rust_converter(&self) -> Option<Seq<char>>;

    /// Whether an input of the type is const.
    spec fn const_input(&self) -> bool;

    /// Whether an input of the type is a reference.
    spec fn ref_input(&self) -> bool;

    /// The name of the type in C++.
    spec fn cpp_name(&self) -> Seq<char>;

    /// Any converter that is required to convert this type into C++
    fn convert_into_cpp(&self) -> (r: Option<&'static str>)
        ensures
            r is Some == self.cpp_converter() is Some,
            r matches Some(name) ==> self.cpp_converter() == Some(name@),
    ;

    /// Any converter that is required to convert this type into rust
    fn convert_into_rust(&self) -> (r: Option<&'static str>)
        ensures
            r is Some == self.rust_converter() is Some,
            r matches Some(name) ==> self.rust_converter() == Some(name@),
    ;

    /// Whether this type is a const (when used as an input to methods)
    fn is_const(&self) -> (r: bool)
        ensures
            r == self.const_input(),
    ;

    /// Whether this type is a reference
    fn is_ref(&self) -> (r: bool)
        ensures
            r == self.ref_input(),
    ;

    /// The C++ type name of the CppType
    fn type_ident(&self) -> (r: &'static str)
        ensures
            r@ == self.cpp_name(),
    ;
}

impl CppType for CppTypes {
    open spec fn cpp_converter(&self) -> Option<Seq<char>> {
        match self {
            CppTypes::I32 => None,
            CppTypes::String => Some("rustStringToQString"@),
        }
    }

    open spec fn rust_converter(&self) -> Option<Seq<char>> {
        match self {
            CppTypes::I32 => None,
            CppTypes::String => Some("qStringToRustString"@),
        }
    }

    open spec fn const_input(&self) -> bool {
        *self == CppTypes::String
    }

    open spec fn ref_input(&self) -> bool {
        *self == CppTypes::String
    }

    open spec fn cpp_name(&self) -> Seq<char> {
        match self {
            CppTypes::I32 => "int"@,
            CppTypes::String => "QString"@,
        }
    }

    fn convert_into_cpp(&self) -> (r: Option<&'static str>) {
        match self {
            CppTypes::I32 => None,
            CppTypes::String => Some("rustStringToQString"),
        }
    }

    fn convert_into_rust(&self) -> (r: Option<&'static str>) {
        match self {
            CppTypes::I32 => None,
            CppTypes::String => Some("qStringToRustString"),
        }
    }

    fn is_const(&self) -> (r: bool) {
        match self {
            CppTypes::I32 => false,
            CppTypes::String => true,
        }
    }

    fn is_ref(&self) -> (r: bool) {
        match self {
            CppTypes::I32 => false,
            CppTypes::String => true,
        }
    }

    fn type_ident(&self) -> (r: &'static str) {
        match self {
            CppTypes::I32 => "int",
            CppTypes::String => "QString",
        }
    }
}

/// Why an object has no C++ side: a message, and the place in the Rust source
/// that it speaks of.
#[derive(Debug)]
pub struct GenerateError {
    /// The place of the identifier that could not be translated
    pub span: Span,
    /// What is wrong with it
    pub message: String,
}

impl GenerateError {
    /// Whether this is the error for a type identifier that no C++ type
    /// stands for: it stands at the identifier and names it.
    pub open spec fn reports(&self, type_ident: Ident) -> bool {
        &&& self.span == type_ident.span
        &&& self.message@ == unknown_type_message(type_ident@)
    }
}

/// The message for a type identifier that no C++ type stands for.
pub open spec fn unknown_type_message(type_ident: Seq<char>) -> Seq<char> {
    "Unknown type ident to convert to C++: "@ + type_ident
}

/// The C++ type that a Rust type identifier translates into, if there is one.
pub open spec fn cpp_type(type_ident: Seq<char>) -> Option<CppTypes> {
    if type_ident == "str"@ || type_ident == "String"@ {
        Some(CppTypes::String)
    } else if type_ident == "i32"@ {
        Some(CppTypes::I32)
    } else {
        None
    }
}

/// Whether a Rust type identifier translates into a C++ type.
pub open spec fn known_type(type_ident: Seq<char>) -> bool {
    cpp_type(type_ident) is Some
}

/// Whether every type identifier of a list translates into a C++ type.
pub open spec fn all_known(types: Seq<Ident>) -> bool {
    forall|i: int| 0 <= i < types.len() ==> known_type(#[trigger] types[i]@)
}

/// Whether `i` is the first place in a list at which a type identifier stands
/// that translates into no C++ type.
pub open spec fn first_unknown(types: Seq<Ident>, i: int) -> bool {
    &&& 0 <= i < types.len()
    &&& !known_type(types[i]@)
    &&& all_known(types.take(i))
}

/// Whether `error` is the error for the first type identifier of a list that
/// translates into no C++ type.
pub open spec fn reports_first_unknown(error: GenerateError, types: Seq<Ident>) -> bool {
    exists|i: int| #[trigger] first_unknown(types, i) && error.reports(types[i])
}

/// Generate a C++ type for a given rust ident
pub fn generate_type_cpp(type_ident: &Ident) -> (r: Result<CppTypes, GenerateError>)
    ensures
        r is Ok == known_type(type_ident@),
        r matches Ok(t) ==> cpp_type(type_ident@) == Some(t),
        r matches Err(e) ==> e.reports(*type_ident),
        r is Ok <==> type_ident.text@ == "str"@ || type_ident.text@ == "String"@
            || type_ident.text@ == "i32"@,
        r matches Ok(t) ==> (t == CppTypes::I32 <==> type_ident.text@ == "i32"@),
        r matches Err(e) ==> e.span == type_ident.span && e.message@
            == "Unknown type ident to convert to C++: "@ + type_ident.text@,
{
    proof {
        lemma_type_idents_differ();
    }
    if type_ident.text == "str".to_owned() || type_ident.text == "String".to_owned() {
        Ok(CppTypes::String)
    } else if type_ident.text == "i32".to_owned() {
        Ok(CppTypes::I32)
    } else {
        let mut message = "Unknown type ident to convert to C++: ".to_owned();
        message.append(type_ident.text.as_str());
        Err(GenerateError { span: type_ident.span, message })
    }
}

/// The identifiers of the known types are three different texts.
pub proof fn lemma_type_idents_differ()
    ensures
        "str"@ != "String"@,
        "str"@ != "i32"@,
        "String"@ != "i32"@,
{
    reveal_strlit("str");
    reveal_strlit("String");
    reveal_strlit("i32");
    assert("str"@[0] == 's');
    assert("String"@[0] == 'S');
    assert("i32"@[0] == 'i');
}

/// The types of two lists are all known exactly if those of each list are.
pub proof fn lemma_all_known_append(before: Seq<Ident>, behind: Seq<Ident>)
    ensures
        all_known(before + behind) == (all_known(before) && all_known(behind)),
{
    if all_known(before + behind) {
        assert forall|i: int| 0 <= i < before.len() implies known_type(#[trigger] before[i]@) by {
            assert(before[i] == (before + behind)[i]);
        }
        assert forall|i: int| 0 <= i < behind.len() implies known_type(#[trigger] behind[i]@) by {
            assert(behind[i] == (before + behind)[before.len() + i]);
        }
    }
}

/// The first unknown type of a list stays the first if the list goes on.
pub proof fn lemma_first_unknown_before(
    error: GenerateError,
    before: Seq<Ident>,
    behind: Seq<Ident>,
)
    requires
        reports_first_unknown(error, before),
    ensures
        reports_first_unknown(error, before + behind),
{
    let i = choose|i: int| #[trigger] first_unknown(before, i) && error.reports(before[i]);
    assert((before + behind).take(i) == before.take(i));
    assert(first_unknown(before + behind, i));
}

/// The first unknown type of a list stays the first if known types come
/// before the list.
pub proof fn lemma_first_unknown_behind(
    error: GenerateError,
    before: Seq<Ident>,
    behind: Seq<Ident>,
)
    requires
        all_known(before),
        reports_first_unknown(error, behind),
    ensures
        reports_first_unknown(error, before + behind),
{
    let i = choose|i: int| #[trigger] first_unknown(behind, i) && error.reports(behind[i]);
    lemma_all_known_append(before, behind.take(i));
    assert((before + behind).take(before.len() + i) == before + behind.take(i));
    assert(first_unknown(before + behind, before.len() + i));
}

} // verus!
