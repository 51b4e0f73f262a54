//! The names that the C++ side derives from the names of the Rust side.
use convert_case::{Case, Casing};
use vstd::prelude::*;

verus! {

/// The cases that names are converted into.
#[derive(Debug, Clone, Copy, PartialEq, Eq, Structural)]
pub enum NameCase {
    /// `myName`
    Camel,
    /// `my_name`
    Snake,
    /// `My Name`
    Title,
}

/// What `convert_case` makes of a name in a case.
pub uninterp spec fn case_converted(name: Seq<char>, case: NameCase) -> Seq<char>;

/// Calls `convert_case::Casing::to_case` with the case of the same name.
///
/// Claimed of it: the result is determined by the text of the name and the
/// case. It splits the name into words and writes the words in the case; how
/// it finds the words is left to that function.
#[verifier::external_body]
fn to_case(name: &str, case: NameCase) -> (r: String)
    ensures
        r@ == case_converted(name@, case),
{
    let case = match case {
        NameCase::Camel => Case::Camel,
        NameCase::Snake => Case::Snake,
        NameCase::Title => Case::Title,
    };
    name.to_case(case)
}

/// The name in snake case.
pub fn snake_case(name: &str) -> (r: String)
    ensures
        r@ == case_converted(name@, NameCase::Snake),
{
    to_case(name, NameCase::Snake)
}

/// The names of the methods of a property, in C++ and in Rust.
#[derive(Debug)]
pub struct PropertyNames {
    /// The getter in C++
    pub getter: String,
    /// The getter in Rust
    pub getter_rust: String,
    /// The setter in C++
    pub setter: String,
    /// The setter in Rust
    pub setter_rust: String,
    /// The signal for a change in C++
    pub changed: String,
}

/// The texts of the names of the methods of a property.
#[verifier::ext_equal]
pub struct PropertyNamesModel {
    pub getter: Seq<char>,
    pub getter_rust: Seq<char>,
    pub setter: Seq<char>,
    pub setter_rust: Seq<char>,
    pub changed: Seq<char>,
}

impl View for PropertyNames {
    type V = PropertyNamesModel;

    open spec fn view(&self) -> PropertyNamesModel {
        PropertyNamesModel {
            getter: self.getter@,
            getter_rust: self.getter_rust@,
            setter: self.setter@,
            setter_rust: self.setter_rust@,
            changed: self.changed@,
        }
    }
}

/// The name of the setter for a property whose name in title case is `title`.
pub open spec fn setter_name(title: Seq<char>) -> Seq<char> {
    "set"@ + title
}

/// The names of the methods of a property, from its name in title, snake and
/// camel case and from the name of its setter in snake case.
pub open spec fn names_from_cases(
    title: Seq<char>,
    snake: Seq<char>,
    camel: Seq<char>,
    setter_snake: Seq<char>,
) -> PropertyNamesModel {
    PropertyNamesModel {
        getter: "get"@ + title,
        getter_rust: snake,
        setter: setter_name(title),
        setter_rust: setter_snake,
        changed: camel + "Changed"@,
    }
}

/// The names of the methods of the property `ident`.
pub open spec fn property_names(ident: Seq<char>) -> PropertyNamesModel {
    let title = case_converted(ident, NameCase::Title);
    names_from_cases(
        title,
        case_converted(ident, NameCase::Snake),
        case_converted(ident, NameCase::Camel),
        case_converted(setter_name(title), NameCase::Snake),
    )
}

/// The name of the setter for a property whose name in title case is `title`.
pub fn setter_ident(title: &str) -> (r: String)
    ensures
        r@ == setter_name(title@),
{
    let mut ident = "set".to_owned();
    ident.append(title);
    ident
}

impl PropertyNames {
    /// The names of the methods of a property, from its name in title, snake
    /// and camel case and from the name of its setter in snake case.
    pub fn from_cases(title: &str, snake: &str, camel: &str, setter_snake: &str) -> (r: Self)
        ensures
            r@ == names_from_cases(title@, snake@, camel@, setter_snake@),
    {
        let mut getter = "get".to_owned();
        getter.append(title);
        let mut changed = camel.to_owned();
        changed.append("Changed");
        PropertyNames {
            getter,
            getter_rust: snake.to_owned(),
            setter: setter_ident(title),
            setter_rust: setter_snake.to_owned(),
            changed,
        }
    }

    /// The names of the methods of the property `ident`.
    pub fn new(ident: &str) -> (r: Self)
        ensures
            r@ == property_names(ident@),
    {
        let title = to_case(ident, NameCase::Title);
        let snake = to_case(ident, NameCase::Snake);
        let camel = to_case(ident, NameCase::Camel);
        let setter_snake = to_case(setter_ident(title.as_str()).as_str(), NameCase::Snake);
        PropertyNames::from_cases(
            title.as_str(),
            snake.as_str(),
            camel.as_str(),
            setter_snake.as_str(),
        )
    }
}

} // verus!
