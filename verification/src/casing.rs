//! Casing styles for argument names, and the names that they apply to.

use vstd::prelude::*;
use crate::error::{AttrError, AttrErrorKind, AttrErrorKindView, AttrErrorView};
use crate::text::str_eq;
use crate::tokens::Sp;

verus! {

/// Defines the casing for the attributes long representation.
#[derive(Copy, Clone, Debug, PartialEq, Eq, Structural)]
pub enum CasingStyle {
    /// Indicate word boundaries with uppercase letter, excluding the first word.
    Camel,
    /// Keep all letters lowercase and indicate word boundaries with hyphens.
    Kebab,
    /// Indicate word boundaries with uppercase letter, including the first word.
    Pascal,
    /// Keep all letters uppercase and indicate word boundaries with underscores.
    ScreamingSnake,
    /// Keep all letters lowercase and indicate word boundaries with underscores.
    Snake,
    /// Use the original attribute name defined in the code.
    Verbatim,
}

/// What `heck::CamelCase::to_camel_case` returns for a string.
pub uninterp spec fn heck_camel_case(s: Seq<char>) -> Seq<char>;

/// What `heck::KebabCase::to_kebab_case` returns for a string.
pub uninterp spec fn heck_kebab_case(s: Seq<char>) -> Seq<char>;

/// What `heck::MixedCase::to_mixed_case` returns for a string.
pub uninterp spec fn heck_mixed_case(s: Seq<char>) -> Seq<char>;

/// What `heck::ShoutySnakeCase::to_shouty_snake_case` returns for a string.
pub uninterp spec fn heck_shouty_snake_case(s: Seq<char>) -> Seq<char>;

/// What `heck::SnakeCase::to_snake_case` returns for a string.
pub uninterp spec fn heck_snake_case(s: Seq<char>) -> Seq<char>;

/// What `str::to_lowercase` returns for a string.
pub uninterp spec fn std_to_lowercase(s: Seq<char>) -> Seq<char>;

/// `heck::CamelCase::to_camel_case`: words capitalized and joined; the result
/// is the named function of the input.
#[verifier::external_body]
fn to_camel_case(s: &str) -> (res: String)
    ensures
        res@ == heck_camel_case(s@),
{
    heck::CamelCase::to_camel_case(s)
}

/// `heck::KebabCase::to_kebab_case`: lowercase words joined by `-`; the
/// result is the named function of the input.
#[verifier::external_body]
fn to_kebab_case(s: &str) -> (res: String)
    ensures
        res@ == heck_kebab_case(s@),
{
    heck::KebabCase::to_kebab_case(s)
}

/// `heck::MixedCase::to_mixed_case`: like camel case with a lowercase first
/// word; the result is the named function of the input.
#[verifier::external_body]
fn to_mixed_case(s: &str) -> (res: String)
    ensures
        res@ == heck_mixed_case(s@),
{
    heck::MixedCase::to_mixed_case(s)
}

/// `heck::ShoutySnakeCase::to_shouty_snake_case`: uppercase words joined by
/// `_`; the result is the named function of the input.
#[verifier::external_body]
fn to_shouty_snake_case(s: &str) -> (res: String)
    ensures
        res@ == heck_shouty_snake_case(s@),
{
    heck::ShoutySnakeCase::to_shouty_snake_case(s)
}

/// `heck::SnakeCase::to_snake_case`: lowercase words joined by `_`; the
/// result is the named function of the input.
#[verifier::external_body]
fn to_snake_case(s: &str) -> (res: String)
    ensures
        res@ == heck_snake_case(s@),
{
    heck::SnakeCase::to_snake_case(s)
}

/// `str::to_lowercase`: the Unicode lowercase of the string; the result is
/// the named function of the input.
#[verifier::external_body]
fn to_lowercase(s: &str) -> (res: String)
    ensures
        res@ == std_to_lowercase(s@),
{
    s.to_lowercase()
}

/// The casing style that a normalized `rename_all` value names, if any.
pub open spec fn casing_named(s: Seq<char>) -> Option<CasingStyle> {
    if s == "camel"@ || s == "camelcase"@ {
        Some(CasingStyle::Camel)
    } else if s == "kebab"@ || s == "kebabcase"@ {
        Some(CasingStyle::Kebab)
    } else if s == "pascal"@ || s == "pascalcase"@ {
        Some(CasingStyle::Pascal)
    } else if s == "screamingsnake"@ || s == "screamingsnakecase"@ {
        Some(CasingStyle::ScreamingSnake)
    } else if s == "snake"@ || s == "snakecase"@ {
        Some(CasingStyle::Snake)
    } else if s == "verbatim"@ || s == "verbatimcase"@ {
        Some(CasingStyle::Verbatim)
    } else {
        None
    }
}

/// How a `rename_all` value is normalized before it is looked up: camel
/// case, then lowercase, so that `"kebab-case"`, `"KebabCase"` and `"kebab"`
/// name the same style.
pub open spec fn normalized_casing(s: Seq<char>) -> Seq<char> {
    std_to_lowercase(heck_camel_case(s))
}

/// The result of reading a `rename_all = "..."` value.
pub open spec fn casing_from_lit(name: (Seq<char>, proc_macro2::Span))
    -> Result<(CasingStyle, proc_macro2::Span), AttrErrorView>
{
    match casing_named(normalized_casing(name.0)) {
        Some(cs) => Ok((cs, name.1)),
        None => Err(AttrErrorView {
            kind: AttrErrorKindView::UnsupportedCasing(normalized_casing(name.0)),
            span: name.1,
        }),
    }
}

impl CasingStyle {
    /// The style named by an already normalized `rename_all` value.
    pub fn from_normalized(s: &str) -> (res: Option<CasingStyle>)
        ensures
            res == casing_named(s@),
    {
        if str_eq(s, "camel") || str_eq(s, "camelcase") {
            Some(CasingStyle::Camel)
        } else if str_eq(s, "kebab") || str_eq(s, "kebabcase") {
            Some(CasingStyle::Kebab)
        } else if str_eq(s, "pascal") || str_eq(s, "pascalcase") {
            Some(CasingStyle::Pascal)
        } else if str_eq(s, "screamingsnake") || str_eq(s, "screamingsnakecase") {
            Some(CasingStyle::ScreamingSnake)
        } else if str_eq(s, "snake") || str_eq(s, "snakecase") {
            Some(CasingStyle::Snake)
        } else if str_eq(s, "verbatim") || str_eq(s, "verbatimcase") {
            Some(CasingStyle::Verbatim)
        } else {
            None
        }
    }

    /// Reads the value of `rename_all = "..."`.
    pub fn from_lit(name: Sp<String>) -> (res: Result<Sp<CasingStyle>, AttrError>)
        ensures
            match res {
                Ok(cs) => casing_from_lit(name@) == Ok::<_, AttrErrorView>((cs.value, cs.span)),
                Err(e) => casing_from_lit(name@) == Err::<(CasingStyle, proc_macro2::Span), _>(e@),
            },
    {
        let camel = to_camel_case(name.value.as_str());
        let normalized = to_lowercase(camel.as_str());
        match CasingStyle::from_normalized(normalized.as_str()) {
            Some(cs) => Ok(Sp::new(cs, name.span)),
            None => Err(AttrError { kind: AttrErrorKind::UnsupportedCasing(normalized), span: name.span }),
        }
    }
}

/// An identifier without its `r#` prefix, if it has one (`syn`'s
/// `IdentExt::unraw`).
pub open spec fn unraw(s: Seq<char>) -> Seq<char> {
    if s.len() >= 2 && s[0] == 'r' && s[1] == '#' {
        s.skip(2)
    } else {
        s
    }
}

/// A field or struct name written in a casing style.
pub open spec fn cased(style: CasingStyle, ident: Seq<char>) -> Seq<char> {
    let s = unraw(ident);
    match style {
        CasingStyle::Pascal => heck_camel_case(s),
        CasingStyle::Kebab => heck_kebab_case(s),
        CasingStyle::Camel => heck_mixed_case(s),
        CasingStyle::ScreamingSnake => heck_shouty_snake_case(s),
        CasingStyle::Snake => heck_snake_case(s),
        CasingStyle::Verbatim => s,
    }
}

/// The name of an argument: taken from the field or struct identifier and
/// cased, or set by `name = "..."` and kept as written.
#[derive(Debug)]
pub enum Name {
    /// The identifier as written, `r#` included for a raw identifier.
    Derived(Sp<String>),
    /// The string given by `name = "..."`.
    Assigned(Sp<String>),
}

/// A name seen as its strings.
pub enum NameView {
    Derived((Seq<char>, proc_macro2::Span)),
    Assigned((Seq<char>, proc_macro2::Span)),
}

impl View for Name {
    type V = NameView;

    open spec fn view(&self) -> NameView {
        match self {
            Name::Derived(s) => NameView::Derived(s@),
            Name::Assigned(s) => NameView::Assigned(s@),
        }
    }
}

/// The string that a name stands for in a casing style, with its position.
pub open spec fn translated(name: NameView, style: CasingStyle) -> (Seq<char>, proc_macro2::Span) {
    match name {
        NameView::Assigned(lit) => lit,
        NameView::Derived(ident) => (cased(style, ident.0), ident.1),
    }
}

/// The characters of `s` from index 2 on.
fn skip_two(s: &str) -> (res: String)
    requires
        s@.len() >= 2,
    ensures
        res@ == s@.skip(2),
{
    let chars = crate::text::chars_of(s);
    let rest = crate::text::copy_range(chars.as_slice(), 2, chars.len());
    crate::text::string_of(rest.as_slice())
}

/// Removes the `r#` prefix of a raw identifier.
pub fn unraw_exec(s: &str) -> (res: String)
    ensures
        res@ == unraw(s@),
{
    let n = s.unicode_len();
    if n >= 2 && s.get_char(0) == 'r' && s.get_char(1) == '#' {
        skip_two(s)
    } else {
        String::from_str(s)
    }
}

impl Name {
    /// The name as it appears on the command line in a casing style.
    pub fn translate_ref(&self, style: CasingStyle) -> (res: Sp<String>)
        ensures
            res@ == translated(self@, style),
    {
        match self {
            Name::Assigned(lit) => crate::tokens::copy_sp_string(lit),
            Name::Derived(ident) => {
                let s = unraw_exec(ident.value.as_str());
                let s = match style {
                    CasingStyle::Pascal => to_camel_case(s.as_str()),
                    CasingStyle::Kebab => to_kebab_case(s.as_str()),
                    CasingStyle::Camel => to_mixed_case(s.as_str()),
                    CasingStyle::ScreamingSnake => to_shouty_snake_case(s.as_str()),
                    CasingStyle::Snake => to_snake_case(s.as_str()),
                    CasingStyle::Verbatim => s,
                };
                Sp::new(s, ident.span)
            },
        }
    }

    /// The name as it appears on the command line in a casing style.
    pub fn translate(self, style: CasingStyle) -> (res: Sp<String>)
        ensures
            res@ == translated(self@, style),
    {
        self.translate_ref(style)
    }
}

} // verus!
