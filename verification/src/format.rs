//! The style in which C++ files are laid out.
use clang_format::CLANG_FORMAT_STYLE;
use vstd::prelude::*;

verus! {

/// Describes the style to pass to clang-format
#[derive(Debug, Clone, Copy, PartialEq, Eq, Structural)]
pub enum ClangFormatStyle {
    Chromium,
    Default,
    File,
    Google,
    Llvm,
    Mozilla,
    WebKit,
}

/// Calls `set` on `clang_format::CLANG_FORMAT_STYLE` with the style of the
/// same name.
///
/// Claimed of it: if the style is not stored, the style that was handed over
/// comes back. Whether it is stored is left unsaid: that is so exactly if no
/// style was stored or used before in the same process.
#[verifier::external_body]
fn set_clang_format_style(style: ClangFormatStyle) -> (r: Result<(), ClangFormatStyle>)
    ensures
        r matches Err(refused) ==> refused == style,
{
    let value = match style {
        ClangFormatStyle::Chromium => clang_format::ClangFormatStyle::Chromium,
        ClangFormatStyle::Default => clang_format::ClangFormatStyle::Default,
        ClangFormatStyle::File => clang_format::ClangFormatStyle::File,
        ClangFormatStyle::Google => clang_format::ClangFormatStyle::Google,
        ClangFormatStyle::Llvm => clang_format::ClangFormatStyle::Llvm,
        ClangFormatStyle::Mozilla => clang_format::ClangFormatStyle::Mozilla,
        ClangFormatStyle::WebKit => clang_format::ClangFormatStyle::WebKit,
    };
    CLANG_FORMAT_STYLE.set(value).map_err(|_| style)
}

/// The style to use: the given one, else that of Mozilla.
pub fn style_or_default(style: Option<ClangFormatStyle>) -> (r: ClangFormatStyle)
    ensures
        r == style.unwrap_or(ClangFormatStyle::Mozilla),
{
    style.unwrap_or(ClangFormatStyle::Mozilla)
}

/// Whether `reply` is what storing `style` has given: no other style was
/// handed to the store for it.
pub closed spec fn stored_with(
    style: ClangFormatStyle,
    reply: Result<(), ClangFormatStyle>,
) -> bool {
    call_ensures(set_clang_format_style, (style,), reply)
}

/// Set the style that clang-format uses from now on in this process, by
/// default that of Mozilla. The style comes back if one was set or used before.
pub fn generate_format(style: Option<ClangFormatStyle>) -> (r: Result<(), ClangFormatStyle>)
    ensures
        stored_with(style.unwrap_or(ClangFormatStyle::Mozilla), r),
        r matches Err(refused) ==> refused == style.unwrap_or(ClangFormatStyle::Mozilla),
{
    set_clang_format_style(style_or_default(style))
}

/// A style that is not stored is handed back, and no other.
pub proof fn law_a_refused_style_comes_back(
    style: ClangFormatStyle,
    reply: Result<(), ClangFormatStyle>,
)
    requires
        stored_with(style, reply),
    ensures
        reply is Ok || reply == Err::<(), ClangFormatStyle>(style),
{
}

} // verus!
