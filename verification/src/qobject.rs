//! The description of a Qt object as it stands on the Rust side.
use proc_macro2::Span;
use vstd::prelude::*;

verus! {

/// `proc_macro2::Span`, the place of a token in the Rust source. It is only
/// carried from an identifier to the error that speaks of it.
#[verifier::external_type_specification]
#[verifier::external_body]
pub struct ExSpan(Span);

/// A Rust identifier: its text, as the compiler prints it, and its place.
#[derive(Debug)]
pub struct Ident {
    /// The text of the identifier
    pub text: String,
    /// Where the identifier stands in the Rust source
    pub span: Span,
}

impl View for Ident {
    type V = Seq<char>;

    open spec fn view(&self) -> Seq<char> {
        self.text@
    }
}

/// A parameter of an invokable
#[derive(Debug)]
pub struct Parameter {
    /// The ident of the parameter
    pub ident: Ident,
    /// The type ident of the parameter
    pub type_ident: Ident,
}

/// An invokable of a Qt object
#[derive(Debug)]
pub struct Invokable {
    /// The ident of the invokable
    pub ident: Ident,
    /// The parameters that the invokable takes
    pub parameters: Vec<Parameter>,
}

/// A property of a Qt object
#[derive(Debug)]
pub struct Property {
    /// The ident of the property
    pub ident: Ident,
    /// The type ident of the property
    pub type_ident: Ident,
}

/// A Qt object as it is written in Rust
#[derive(Debug)]
pub struct QObject {
    /// The ident of the struct that is the object
    pub ident: Ident,
    /// The invokables of the object
    pub invokables: Vec<Invokable>,
    /// The properties of the object
    pub properties: Vec<Property>,
}

/// What a parameter says, wherever it stands.
#[verifier::ext_equal]
pub struct ParameterModel {
    pub ident: Seq<char>,
    pub type_ident: Seq<char>,
}

/// What an invokable says, wherever it stands.
#[verifier::ext_equal]
pub struct InvokableModel {
    pub ident: Seq<char>,
    pub parameters: Seq<ParameterModel>,
}

/// What a property says, wherever it stands.
#[verifier::ext_equal]
pub struct PropertyModel {
    pub ident: Seq<char>,
    pub type_ident: Seq<char>,
}

/// What a Qt object says, wherever it stands.
#[verifier::ext_equal]
pub struct QObjectModel {
    pub ident: Seq<char>,
    pub invokables: Seq<InvokableModel>,
    pub properties: Seq<PropertyModel>,
}

impl View for Parameter {
    type V = ParameterModel;

    open spec fn view(&self) -> ParameterModel {
        ParameterModel { ident: self.ident@, type_ident: self.type_ident@ }
    }
}

impl View for Invokable {
    type V = InvokableModel;

    open spec fn view(&self) -> InvokableModel {
        InvokableModel { ident: self.ident@, parameters: parameter_models(self.parameters@) }
    }
}

impl View for Property {
    type V = PropertyModel;

    open spec fn view(&self) -> PropertyModel {
        PropertyModel { ident: self.ident@, type_ident: self.type_ident@ }
    }
}

impl View for QObject {
    type V = QObjectModel;

    open spec fn view(&self) -> QObjectModel {
        QObjectModel {
            ident: self.ident@,
            invokables: invokable_models(self.invokables@),
            properties: property_models(self.properties@),
        }
    }
}

/// What the parameters of a list say.
pub open spec fn parameter_models(parameters: Seq<Parameter>) -> Seq<ParameterModel> {
    Seq::new(parameters.len(), |i: int| parameters[i]@)
}

/// What the invokables of a list say.
pub open spec fn invokable_models(invokables: Seq<Invokable>) -> Seq<InvokableModel> {
    Seq::new(invokables.len(), |i: int| invokables[i]@)
}

/// What the properties of a list say.
pub open spec fn property_models(properties: Seq<Property>) -> Seq<PropertyModel> {
    Seq::new(properties.len(), |i: int| properties[i]@)
}

/// The type identifiers of a list of parameters, in order.
pub open spec fn parameter_types(parameters: Seq<Parameter>) -> Seq<Ident> {
    Seq::new(parameters.len(), |i: int| parameters[i].type_ident)
}

/// The type identifiers of a list of properties, in order.
pub open spec fn property_types(properties: Seq<Property>) -> Seq<Ident> {
    Seq::new(properties.len(), |i: int| properties[i].type_ident)
}

/// The type identifiers of the parameters of a list of invokables, in order.
pub open spec fn invokable_types(invokables: Seq<Invokable>) -> Seq<Ident>
    decreases invokables.len(),
{
    if invokables.len() == 0 {
        seq![]
    } else {
        invokable_types(invokables.drop_last()) + parameter_types(invokables.last().parameters@)
    }
}

/// The type identifiers of an object in the order in which they are
/// translated: those of its properties, then those of its invokables.
pub open spec fn object_types(obj: QObject) -> Seq<Ident> {
    property_types(obj.properties@) + invokable_types(obj.invokables@)
}

/// The types of a list of invokables start with those of its first `n`
/// invokables; what follows is returned.
pub proof fn lemma_invokable_types_prefix(invokables: Seq<Invokable>, n: int) -> (rest: Seq<Ident>)
    requires
        0 <= n <= invokables.len(),
    ensures
        invokable_types(invokables) == invokable_types(invokables.take(n)) + rest,
    decreases invokables.len(),
{
    if n == invokables.len() {
        assert(invokables.take(n) == invokables);
        seq![]
    } else {
        let shorter = invokables.drop_last();
        let rest = lemma_invokable_types_prefix(shorter, n);
        assert(shorter.take(n) == invokables.take(n));
        rest + parameter_types(invokables.last().parameters@)
    }
}

} // verus!
