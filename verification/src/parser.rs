//! How the values of an argument are parsed: `parse(kind [= function])`.

use vstd::prelude::*;
use proc_macro2::{Span, TokenStream};
use crate::error::{AttrError, AttrErrorKind, AttrErrorKindView, AttrErrorView};
use crate::text::str_eq;
use crate::tokens::Sp;

verus! {

/// The kinds of parser that `parse(...)` accepts.
#[derive(Copy, Clone, Debug, PartialEq, Eq, Structural)]
pub enum ParserKind {
    FromStr,
    TryFromStr,
    FromOsStr,
    TryFromOsStr,
    FromOccurrences,
    FromFlag,
}

/// The function that turns a raw value into the field's value.
#[derive(Debug)]
pub enum ParserFunc {
    /// `::std::convert::From::from`
    StdFrom,
    /// `::std::str::FromStr::from_str`
    StdFromStr,
    /// `{ |v| v as _ }`, for a count of occurrences
    OccurrencesCast,
    /// A function path given by the user.
    Custom(TokenStream),
}

/// A parser: its kind and its function, each with the position it came from.
#[derive(Debug)]
pub struct Parser {
    pub kind: Sp<ParserKind>,
    pub func: Sp<ParserFunc>,
}

/// The function written after `=` in `parse(kind = function)`.
#[derive(Debug)]
pub struct ParseFunc {
    /// Whether the expression is a path (`syn::Expr::Path`).
    pub is_path: bool,
    /// The expression's tokens.
    pub tokens: TokenStream,
    /// Where the expression stands.
    pub span: Span,
}

/// What `parse(...)` says: the parser kind as written and the optional function.
#[derive(Debug)]
pub struct ParserSpec {
    pub kind: Sp<String>,
    pub parse_func: Option<ParseFunc>,
}

/// The parser kind that a name stands for, if any.
pub open spec fn parser_kind_named(s: Seq<char>) -> Option<ParserKind> {
    if s == "from_str"@ {
        Some(ParserKind::FromStr)
    } else if s == "try_from_str"@ {
        Some(ParserKind::TryFromStr)
    } else if s == "from_os_str"@ {
        Some(ParserKind::FromOsStr)
    } else if s == "try_from_os_str"@ {
        Some(ParserKind::TryFromOsStr)
    } else if s == "from_occurrences"@ {
        Some(ParserKind::FromOccurrences)
    } else if s == "from_flag"@ {
        Some(ParserKind::FromFlag)
    } else {
        None
    }
}

/// The function used with a parser kind when `parse(...)` names none:
/// `None` for `try_from_os_str`, which must be given one.
pub open spec fn default_func(kind: ParserKind) -> Option<ParserFunc> {
    match kind {
        ParserKind::FromStr | ParserKind::FromOsStr | ParserKind::FromFlag => Some(ParserFunc::StdFrom),
        ParserKind::TryFromStr => Some(ParserFunc::StdFromStr),
        ParserKind::TryFromOsStr => None,
        ParserKind::FromOccurrences => Some(ParserFunc::OccurrencesCast),
    }
}

/// The parser used when there is no `parse(...)`: `try_from_str` with
/// `FromStr::from_str`.
pub open spec fn default_parser(span: Span) -> Sp<Parser> {
    Sp {
        value: Parser {
            kind: Sp { value: ParserKind::TryFromStr, span },
            func: Sp { value: ParserFunc::StdFromStr, span },
        },
        span,
    }
}

/// The parser that `parse(...)` describes, or why it is refused.
pub open spec fn parser_from_spec(parse_ident: Span, spec: ParserSpec) -> Result<Sp<Parser>, AttrErrorView> {
    let kind_span = spec.kind.span;
    match parser_kind_named(spec.kind.value@) {
        None => Err(AttrErrorView {
            kind: AttrErrorKindView::UnsupportedParser(spec.kind.value@),
            span: kind_span,
        }),
        Some(kind) => {
            let func: Result<ParserFunc, AttrErrorView> = match spec.parse_func {
                None => match default_func(kind) {
                    Some(f) => Ok(f),
                    None => Err(AttrErrorView {
                        kind: AttrErrorKindView::TryFromOsStrNeedsFunction,
                        span: kind_span,
                    }),
                },
                Some(f) => if f.is_path {
                    Ok(ParserFunc::Custom(f.tokens))
                } else {
                    Err(AttrErrorView { kind: AttrErrorKindView::ParseFunctionNotPath, span: f.span })
                },
            };
            match func {
                Ok(func) => Ok(Sp {
                    value: Parser {
                        kind: Sp { value: kind, span: kind_span },
                        func: Sp { value: func, span: kind_span },
                    },
                    span: parse_ident,
                }),
                Err(e) => Err(e),
            }
        },
    }
}

/// The result of a fallible step, with the error seen as its view.
pub open spec fn result_view<T>(r: Result<T, AttrError>) -> Result<T, AttrErrorView> {
    match r {
        Ok(v) => Ok(v),
        Err(e) => Err(e@),
    }
}

fn parser_kind_from_name(s: &str) -> (res: Option<ParserKind>)
    ensures
        res == parser_kind_named(s@),
{
    if str_eq(s, "from_str") {
        Some(ParserKind::FromStr)
    } else if str_eq(s, "try_from_str") {
        Some(ParserKind::TryFromStr)
    } else if str_eq(s, "from_os_str") {
        Some(ParserKind::FromOsStr)
    } else if str_eq(s, "try_from_os_str") {
        Some(ParserKind::TryFromOsStr)
    } else if str_eq(s, "from_occurrences") {
        Some(ParserKind::FromOccurrences)
    } else if str_eq(s, "from_flag") {
        Some(ParserKind::FromFlag)
    } else {
        None
    }
}

impl Parser {
    /// The parser used when there is no `parse(...)`.
    pub fn default_spanned(span: Span) -> (res: Sp<Parser>)
        ensures
            res == default_parser(span),
    {
        let kind = Sp::new(ParserKind::TryFromStr, span);
        let func = Sp::new(ParserFunc::StdFromStr, span);
        Sp::new(Parser { kind, func }, span)
    }

    /// The parser that `parse(...)` describes; `parse_ident` is where the
    /// word `parse` stands.
    pub fn from_spec(parse_ident: Span, spec: ParserSpec) -> (res: Result<Sp<Parser>, AttrError>)
        ensures
            result_view(res) == parser_from_spec(parse_ident, spec),
    {
        let ghost spec0 = spec;
        let kind_span = spec.kind.span;
        let kind = match parser_kind_from_name(spec.kind.value.as_str()) {
            Some(k) => k,
            None => {
                return Err(AttrError { kind: AttrErrorKind::UnsupportedParser(spec.kind.value), span: kind_span });
            },
        };
        let func = match spec.parse_func {
            None => match kind {
                ParserKind::FromStr | ParserKind::FromOsStr => ParserFunc::StdFrom,
                ParserKind::TryFromStr => ParserFunc::StdFromStr,
                ParserKind::TryFromOsStr => {
                    return Err(AttrError { kind: AttrErrorKind::TryFromOsStrNeedsFunction, span: kind_span });
                },
                ParserKind::FromOccurrences => ParserFunc::OccurrencesCast,
                ParserKind::FromFlag => ParserFunc::StdFrom,
            },
            Some(f) => {
                if f.is_path {
                    ParserFunc::Custom(f.tokens)
                } else {
                    return Err(AttrError { kind: AttrErrorKind::ParseFunctionNotPath, span: f.span });
                }
            },
        };
        let parser = Parser { kind: Sp::new(kind, kind_span), func: Sp::new(func, kind_span) };
        Ok(Sp::new(parser, parse_ident))
    }
}

} // verus!
