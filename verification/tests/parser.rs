use proc_macro2::{Span, TokenStream};
use structopt_derive::error::AttrErrorKind;
use structopt_derive::parser::{ParseFunc, Parser, ParserFunc, ParserKind, ParserSpec};
use structopt_derive::tokens::Sp;

fn spec(kind: &str, func: Option<ParseFunc>) -> ParserSpec {
    ParserSpec { kind: Sp::new(kind.to_string(), Span::call_site()), parse_func: func }
}

fn path_func() -> ParseFunc {
    ParseFunc { is_path: true, tokens: "my_parse".parse::<TokenStream>().unwrap(), span: Span::call_site() }
}

#[test]
fn default_parser() {
    let p = Parser::default_spanned(Span::call_site());
    assert_eq!(p.value.kind.value, ParserKind::TryFromStr);
    assert!(matches!(p.value.func.value, ParserFunc::StdFromStr));
}

#[test]
fn kinds_with_default_functions() {
    let cases = [
        ("from_str", ParserKind::FromStr),
        ("try_from_str", ParserKind::TryFromStr),
        ("from_os_str", ParserKind::FromOsStr),
        ("from_occurrences", ParserKind::FromOccurrences),
        ("from_flag", ParserKind::FromFlag),
    ];
    for (name, kind) in cases.iter() {
        let p = Parser::from_spec(Span::call_site(), spec(name, None)).unwrap();
        assert_eq!(p.value.kind.value, *kind);
        match kind {
            ParserKind::FromStr | ParserKind::FromOsStr | ParserKind::FromFlag => {
                assert!(matches!(p.value.func.value, ParserFunc::StdFrom))
            }
            ParserKind::TryFromStr => assert!(matches!(p.value.func.value, ParserFunc::StdFromStr)),
            ParserKind::FromOccurrences => assert!(matches!(p.value.func.value, ParserFunc::OccurrencesCast)),
            ParserKind::TryFromOsStr => unreachable!(),
        }
    }
}

#[test]
fn try_from_os_str_needs_function() {
    let e = Parser::from_spec(Span::call_site(), spec("try_from_os_str", None)).unwrap_err();
    assert_eq!(e.kind, AttrErrorKind::TryFromOsStrNeedsFunction);
    let p = Parser::from_spec(Span::call_site(), spec("try_from_os_str", Some(path_func()))).unwrap();
    assert_eq!(p.value.kind.value, ParserKind::TryFromOsStr);
    match p.value.func.value {
        ParserFunc::Custom(t) => assert_eq!(t.to_string(), "my_parse"),
        _ => panic!("expected the given function"),
    }
}

#[test]
fn unsupported_parser() {
    let e = Parser::from_spec(Span::call_site(), spec("from_bytes", None)).unwrap_err();
    assert_eq!(e.kind, AttrErrorKind::UnsupportedParser("from_bytes".to_string()));
}

#[test]
fn function_must_be_a_path() {
    let f = ParseFunc { is_path: false, tokens: "|s| s".parse::<TokenStream>().unwrap(), span: Span::call_site() };
    let e = Parser::from_spec(Span::call_site(), spec("from_str", Some(f))).unwrap_err();
    assert_eq!(e.kind, AttrErrorKind::ParseFunctionNotPath);
}

#[test]
fn unknown_kind_is_reported_before_the_function() {
    let f = ParseFunc { is_path: false, tokens: TokenStream::new(), span: Span::call_site() };
    let e = Parser::from_spec(Span::call_site(), spec("nope", Some(f))).unwrap_err();
    assert_eq!(e.kind, AttrErrorKind::UnsupportedParser("nope".to_string()));
}
