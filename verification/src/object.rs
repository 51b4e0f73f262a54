//! C++ classes, as a header and a source file.
use crate::cpp_type;
use crate::cpp_type::GenerateError;
use crate::invokable;
use crate::invokable::{generate_invokables_cpp, CppInvokable, InvokableText};
use crate::naming;
use crate::naming::snake_case;
use crate::property;
use crate::property::{generate_properties_cpp, CppProperty, PropertyText};
use crate::qobject;
use crate::qobject::{QObject, QObjectModel};
use crate::text;
use crate::text::join;
use vstd::prelude::*;

verus! {

/// Describes a C++ header and source files of a C++ class
#[derive(Debug)]
pub struct CppObject {
    /// The header of the C++ class
    pub header: String,
    /// The source of the C++ class
    pub source: String,
}

/// The texts of a C++ class.
#[verifier::ext_equal]
pub struct ObjectText {
    pub header: Seq<char>,
    pub source: Seq<char>,
}

impl View for CppObject {
    type V = ObjectText;

    open spec fn view(&self) -> ObjectText {
        ObjectText { header: self.header@, source: self.source@ }
    }
}

/// The meta definitions of a list of properties.
pub open spec fn metas(properties: Seq<PropertyText>) -> Seq<Seq<char>> {
    Seq::new(properties.len(), |i: int| properties[i].header_meta)
}

/// The public definitions of a list of properties.
pub open spec fn publics(properties: Seq<PropertyText>) -> Seq<Seq<char>> {
    Seq::new(properties.len(), |i: int| properties[i].header_public)
}

/// The signals of a list of properties.
pub open spec fn signals(properties: Seq<PropertyText>) -> Seq<Seq<char>> {
    Seq::new(properties.len(), |i: int| properties[i].header_signals)
}

/// The slots of a list of properties.
pub open spec fn slots(properties: Seq<PropertyText>) -> Seq<Seq<char>> {
    Seq::new(properties.len(), |i: int| properties[i].header_slots)
}

/// The implementations of a list of properties.
pub open spec fn property_sources(properties: Seq<PropertyText>) -> Seq<Seq<char>> {
    Seq::new(properties.len(), |i: int| properties[i].source)
}

/// The definitions of a list of invokables.
pub open spec fn invokable_headers(invokables: Seq<InvokableText>) -> Seq<Seq<char>> {
    Seq::new(invokables.len(), |i: int| invokables[i].header)
}

/// The implementations of a list of invokables.
pub open spec fn invokable_sources(invokables: Seq<InvokableText>) -> Seq<Seq<char>> {
    Seq::new(invokables.len(), |i: int| invokables[i].source)
}

/// The part of a header that declares signals: nothing without properties.
pub open spec fn signal_section(properties: Seq<PropertyText>) -> Seq<char> {
    if properties.len() == 0 {
        ""@
    } else {
        "Q_SIGNALS:\n"@ + text::lines(signals(properties)) + "\n"@
    }
}

/// The part of a header that declares slots: nothing without properties.
pub open spec fn slot_section(properties: Seq<PropertyText>) -> Seq<char> {
    if properties.len() == 0 {
        ""@
    } else {
        "public Q_SLOTS:\n"@ + text::lines(slots(properties)) + "\n"@
    }
}

/// The name of the Rust struct behind the class `ident`.
pub open spec fn rust_struct(ident: Seq<char>) -> Seq<char> {
    ident + "Rs"@
}

/// The header of the class `ident`.
pub open spec fn object_header(
    ident: Seq<char>,
    properties: Seq<PropertyText>,
    invokables: Seq<InvokableText>,
) -> Seq<char> {
    "#pragma once\n\n#include \"rust/cxx_qt.h\"\n\nclass "@ + rust_struct(ident) + ";\n\nclass "@
        + ident + " : public QObject {\n    Q_OBJECT\n"@ + text::lines(metas(properties))
        + "\n\npublic:\n    explicit "@ + ident + "(QObject *parent = nullptr);\n    ~"@ + ident
        + "();\n\n"@ + text::lines(publics(properties)) + "\n"@
        + text::lines(invokable_headers(invokables)) + "\n\n"@
        + slot_section(properties) + "\n"@ + signal_section(properties)
        + "\n\nprivate:\n    rust::Box<"@ + rust_struct(ident)
        + "> m_rustObj;\n};\n\nstd::unique_ptr<"@ + ident + "> new_"@ + ident + "();\n"@
}

/// The source of the class `ident`, whose name in snake case is `ident_snake`.
pub open spec fn object_source(
    ident: Seq<char>,
    ident_snake: Seq<char>,
    properties: Seq<PropertyText>,
    invokables: Seq<InvokableText>,
) -> Seq<char> {
    "#include \"cxx-qt-gen/include/"@ + ident_snake + ".h\"\n#include \"cxx-qt-gen/src/"@
        + ident_snake + ".rs.h\"\n\n"@ + ident + "::"@ + ident
        + "(QObject *parent)\n    : QObject(parent)\n    , m_rustObj(create_"@ + ident_snake
        + "_rs())\n{\n}\n\n"@ + ident + "::~"@ + ident + "() = default;\n\n"@ + text::lines(
        property_sources(properties),
    ) + "\n"@ + text::lines(invokable_sources(invokables)) + "\n\nstd::unique_ptr<"@ + ident
        + "> new_"@ + ident + "()\n{\n    return std::make_unique<"@ + ident + ">();\n}\n"@
}

/// The texts of the class `ident`, whose name in snake case is `ident_snake`,
/// with the given properties and invokables.
pub open spec fn object_text_named(
    ident: Seq<char>,
    ident_snake: Seq<char>,
    properties: Seq<PropertyText>,
    invokables: Seq<InvokableText>,
) -> ObjectText {
    ObjectText {
        header: object_header(ident, properties, invokables),
        source: object_source(ident, ident_snake, properties, invokables),
    }
}

/// The texts of the class for an object whose types are all known.
pub open spec fn object_text(obj: QObjectModel) -> ObjectText {
    object_text_named(
        obj.ident,
        naming::case_converted(obj.ident, naming::NameCase::Snake),
        property::property_texts(obj.ident, obj.properties),
        invokable::invokable_texts(obj.ident, obj.invokables),
    )
}

/// The texts of a list of properties, gathered by where they stand in the
/// class.
struct CppPropertyHelper {
    headers_meta: Vec<String>,
    headers_public: Vec<String>,
    headers_signals: Vec<String>,
    headers_slots: Vec<String>,
    sources: Vec<String>,
}

/// The texts of a list of invokables, gathered by where they stand in the
/// class.
struct CppInvokableHelper {
    headers: Vec<String>,
    sources: Vec<String>,
}

impl CppPropertyHelper {
    /// Whether these are the texts of the given properties, in order.
    spec fn gathers(&self, properties: Seq<PropertyText>) -> bool {
        &&& text::views(self.headers_meta@) =~= metas(properties)
        &&& text::views(self.headers_public@) =~= publics(properties)
        &&& text::views(self.headers_signals@) =~= signals(properties)
        &&& text::views(self.headers_slots@) =~= slots(properties)
        &&& text::views(self.sources@) =~= property_sources(properties)
    }
}

impl CppInvokableHelper {
    /// Whether these are the texts of the given invokables, in order.
    spec fn gathers(&self, invokables: Seq<InvokableText>) -> bool {
        &&& text::views(self.headers@) =~= invokable_headers(invokables)
        &&& text::views(self.sources@) =~= invokable_sources(invokables)
    }
}

/// Gathers the texts of a list of properties.
fn gather_properties(properties: &[CppProperty]) -> (r: CppPropertyHelper)
    ensures
        r.gathers(property::property_views(properties@)),
{
    let ghost texts = property::property_views(properties@);
    let mut acc = CppPropertyHelper {
        headers_meta: vec![],
        headers_public: vec![],
        headers_signals: vec![],
        headers_slots: vec![],
        sources: vec![],
    };
    assert(acc.gathers(texts.take(0)));
    for i in 0..properties.len()
        invariant
            texts == property::property_views(properties@),
            acc.gathers(texts.take(i as int)),
    {
        let property = &properties[i];
        acc.headers_meta.push(property.header_meta.clone());
        acc.headers_public.push(property.header_public.clone());
        acc.headers_signals.push(property.header_signals.clone());
        acc.headers_slots.push(property.header_slots.clone());
        acc.sources.push(property.source.clone());
        proof {
            let had = texts.take(i as int);
            assert(text::views(acc.headers_meta@) == metas(had).push(property.header_meta@));
            assert(text::views(acc.headers_public@) == publics(had).push(property.header_public@));
            assert(text::views(acc.headers_signals@) == signals(had).push(
                property.header_signals@,
            ));
            assert(text::views(acc.headers_slots@) == slots(had).push(property.header_slots@));
            assert(text::views(acc.sources@) == property_sources(had).push(property.source@));
        }
    }
    assert(texts.take(texts.len() as int) == texts);
    acc
}

/// Gathers the texts of a list of invokables.
fn gather_invokables(invokables: &[CppInvokable]) -> (r: CppInvokableHelper)
    ensures
        r.gathers(invokable::invokable_views(invokables@)),
{
    let ghost texts = invokable::invokable_views(invokables@);
    let mut acc = CppInvokableHelper { headers: vec![], sources: vec![] };
    assert(acc.gathers(texts.take(0)));
    for i in 0..invokables.len()
        invariant
            texts == invokable::invokable_views(invokables@),
            acc.gathers(texts.take(i as int)),
    {
        let invokable = &invokables[i];
        acc.headers.push(invokable.header.clone());
        acc.sources.push(invokable.source.clone());
        proof {
            let had = texts.take(i as int);
            assert(text::views(acc.headers@) == invokable_headers(had).push(invokable.header@));
            assert(text::views(acc.sources@) == invokable_sources(had).push(invokable.source@));
        }
    }
    assert(texts.take(texts.len() as int) == texts);
    acc
}

/// The header of the class `ident`.
fn render_header(
    ident: &str,
    properties: &CppPropertyHelper,
    invokables: &CppInvokableHelper,
    Ghost(property_texts): Ghost<Seq<PropertyText>>,
    Ghost(invokable_texts): Ghost<Seq<InvokableText>>,
) -> (r: String)
    requires
        properties.gathers(property_texts),
        invokables.gathers(invokable_texts),
    ensures
        r@ == object_header(ident@, property_texts, invokable_texts),
{
    assert(properties.headers_signals@.len() == signals(property_texts).len());
    assert(properties.headers_slots@.len() == slots(property_texts).len());
    let signals = if properties.headers_signals.is_empty() {
        "".to_owned()
    } else {
        let mut section = "Q_SIGNALS:\n".to_owned();
        section.append(join(properties.headers_signals.as_slice(), "\n").as_str());
        section.append("\n");
        section
    };
    let public_slots = if properties.headers_slots.is_empty() {
        "".to_owned()
    } else {
        let mut section = "public Q_SLOTS:\n".to_owned();
        section.append(join(properties.headers_slots.as_slice(), "\n").as_str());
        section.append("\n");
        section
    };
    let mut rust_struct = ident.to_owned();
    rust_struct.append("Rs");

    let mut header = "#pragma once\n\n#include \"rust/cxx_qt.h\"\n\nclass ".to_owned();
    header.append(rust_struct.as_str());
    header.append(";\n\nclass ");
    header.append(ident);
    header.append(" : public QObject {\n    Q_OBJECT\n");
    header.append(join(properties.headers_meta.as_slice(), "\n").as_str());
    header.append("\n\npublic:\n    explicit ");
    header.append(ident);
    header.append("(QObject *parent = nullptr);\n    ~");
    header.append(ident);
    header.append("();\n\n");
    header.append(join(properties.headers_public.as_slice(), "\n").as_str());
    header.append("\n");
    header.append(join(invokables.headers.as_slice(), "\n").as_str());
    header.append("\n\n");
    header.append(public_slots.as_str());
    header.append("\n");
    header.append(signals.as_str());
    header.append("\n\nprivate:\n    rust::Box<");
    header.append(rust_struct.as_str());
    header.append("> m_rustObj;\n};\n\nstd::unique_ptr<");
    header.append(ident);
    header.append("> new_");
    header.append(ident);
    header.append("();\n");
    header
}

/// The source of the class `ident`, whose name in snake case is `ident_snake`.
fn render_source(
    ident: &str,
    ident_snake: &str,
    properties: &CppPropertyHelper,
    invokables: &CppInvokableHelper,
    Ghost(property_texts): Ghost<Seq<PropertyText>>,
    Ghost(invokable_texts): Ghost<Seq<InvokableText>>,
) -> (r: String)
    requires
        properties.gathers(property_texts),
        invokables.gathers(invokable_texts),
    ensures
        r@ == object_source(ident@, ident_snake@, property_texts, invokable_texts),
{
    let mut source = "#include \"cxx-qt-gen/include/".to_owned();
    source.append(ident_snake);
    source.append(".h\"\n#include \"cxx-qt-gen/src/");
    source.append(ident_snake);
    source.append(".rs.h\"\n\n");
    source.append(ident);
    source.append("::");
    source.append(ident);
    source.append("(QObject *parent)\n    : QObject(parent)\n    , m_rustObj(create_");
    source.append(ident_snake);
    source.append("_rs())\n{\n}\n\n");
    source.append(ident);
    source.append("::~");
    source.append(ident);
    source.append("() = default;\n\n");
    source.append(join(properties.sources.as_slice(), "\n").as_str());
    source.append("\n");
    source.append(join(invokables.sources.as_slice(), "\n").as_str());
    source.append("\n\nstd::unique_ptr<");
    source.append(ident);
    source.append("> new_");
    source.append(ident);
    source.append("()\n{\n    return std::make_unique<");
    source.append(ident);
    source.append(">();\n}\n");
    source
}

/// The C++ class for a name, its snake case, and the parts of the class.
pub fn render_qobject(
    ident: &str,
    ident_snake: &str,
    properties: &[CppProperty],
    invokables: &[CppInvokable],
) -> (r: CppObject)
    ensures
        r@ == object_text_named(
            ident@,
            ident_snake@,
            property::property_views(properties@),
            invokable::invokable_views(invokables@),
        ),
{
    let ghost property_texts = property::property_views(properties@);
    let ghost invokable_texts = invokable::invokable_views(invokables@);
    let properties = gather_properties(properties);
    let invokables = gather_invokables(invokables);
    CppObject {
        header: render_header(
            ident,
            &properties,
            &invokables,
            Ghost(property_texts),
            Ghost(invokable_texts),
        ),
        source: render_source(
            ident,
            ident_snake,
            &properties,
            &invokables,
            Ghost(property_texts),
            Ghost(invokable_texts),
        ),
    }
}

/// Generate a CppObject object containing the header and source of a given rust QObject
///
/// The texts are laid out as they are put together; [`CppObject::formatted`]
/// takes what a formatter makes of them.
pub fn generate_qobject_cpp(obj: &QObject) -> (r: Result<CppObject, GenerateError>)
    ensures
        r is Ok == cpp_type::all_known(qobject::object_types(*obj)),
        r matches Ok(cpp_object) ==> cpp_object@ == object_text(obj@),
        r matches Err(e) ==> cpp_type::reports_first_unknown(e, qobject::object_types(*obj)),
{
    let ghost property_types = qobject::property_types(obj.properties@);
    let ghost invokable_types = qobject::invokable_types(obj.invokables@);
    proof {
        cpp_type::lemma_all_known_append(property_types, invokable_types);
    }
    let properties = match generate_properties_cpp(&obj.ident, obj.properties.as_slice()) {
        Ok(properties) => properties,
        Err(error) => {
            proof {
                cpp_type::lemma_first_unknown_before(error, property_types, invokable_types);
            }
            return Err(error);
        },
    };
    let invokables = match generate_invokables_cpp(&obj.ident, obj.invokables.as_slice()) {
        Ok(invokables) => invokables,
        Err(error) => {
            proof {
                cpp_type::lemma_first_unknown_behind(error, property_types, invokable_types);
            }
            return Err(error);
        },
    };
    let ident_snake = snake_case(obj.ident.text.as_str());
    Ok(
        render_qobject(
            obj.ident.text.as_str(),
            ident_snake.as_str(),
            properties.as_slice(),
            invokables.as_slice(),
        ),
    )
}

impl CppObject {
    /// The class as a formatter laid it out: each file as the formatter
    /// returned it, or as it was where the formatter failed.
    pub fn formatted(self, header: Option<String>, source: Option<String>) -> (r: CppObject)
        ensures
            r.header == header.unwrap_or(self.header),
            r.source == source.unwrap_or(self.source),
    {
        CppObject {
            header: header.unwrap_or(self.header),
            source: source.unwrap_or(self.source),
        }
    }
}

} // verus!
