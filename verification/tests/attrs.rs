use proc_macro2::{Span, TokenStream};
use structopt_derive::attrs::{Attrs, Kind, Method, MethodArgs, PackageEnv, StructOptAttr, Ty};
use structopt_derive::casing::{CasingStyle, Name};
use structopt_derive::error::AttrErrorKind;
use structopt_derive::parser::{ParseFunc, ParserKind, ParserSpec};
use structopt_derive::tokens::Sp;

fn sp(s: &str) -> Sp<String> {
    Sp::new(s.to_string(), Span::call_site())
}

fn toks(s: &str) -> TokenStream {
    s.parse::<TokenStream>().unwrap()
}

fn env() -> PackageEnv {
    PackageEnv {
        description: Some("A tool.".to_string()),
        authors: Some("Ann <ann@x.org>:Bob".to_string()),
        version: Some("0.1.0".to_string()),
    }
}

fn no_env() -> PackageEnv {
    PackageEnv { description: None, authors: None, version: None }
}

fn kebab() -> Sp<CasingStyle> {
    Sp::new(CasingStyle::Kebab, Span::call_site())
}

fn field(name: &str, ty: Ty, attrs: Vec<StructOptAttr>, docs: &[&str]) -> Result<Attrs, structopt_derive::error::AttrError> {
    let docs: Vec<String> = docs.iter().map(|d| d.to_string()).collect();
    Attrs::from_field(Span::call_site(), sp(name), Sp::new(ty, Span::call_site()), &attrs, &docs, kebab(), &env())
}

fn strukt(attrs: Vec<StructOptAttr>, docs: &[&str], e: &PackageEnv) -> Result<Attrs, structopt_derive::error::AttrError> {
    let docs: Vec<String> = docs.iter().map(|d| d.to_string()).collect();
    Attrs::from_struct(Span::call_site(), &attrs, &docs, Name::Derived(sp("MyApp")), kebab(), e)
}

fn names(ms: &[Method]) -> Vec<String> {
    ms.iter().map(|m| m.name.value.clone()).collect()
}

fn lit(m: &Method) -> String {
    match &m.args {
        MethodArgs::Lit(s) => s.value.clone(),
        MethodArgs::Text(s) => s.clone(),
        MethodArgs::Tokens(t) => t.to_string(),
    }
}

fn err(r: Result<Attrs, structopt_derive::error::AttrError>) -> AttrErrorKind {
    r.unwrap_err().kind
}

#[test]
fn long_and_short_use_cased_name() {
    let a = field("my_field", Ty::Other, vec![StructOptAttr::Long(sp("long")), StructOptAttr::Short(sp("short"))], &[]).unwrap();
    assert_eq!(names(&a.methods), vec!["long", "short"]);
    assert_eq!(lit(&a.methods[0]), "my-field");
    assert!(!a.is_positional());
    assert!(a.has_explicit_methods());
    assert!(!a.has_doc_methods());
    assert_eq!(a.cased_name().value, "my-field");
    assert!(matches!(a.kind().value, Kind::Arg(Sp { value: Ty::Other, .. })));
}

#[test]
fn rename_all_changes_later_flags() {
    let a = field(
        "my_field",
        Ty::Other,
        vec![StructOptAttr::RenameAll(sp("rename_all"), sp("screaming_snake")), StructOptAttr::Long(sp("long"))],
        &[],
    )
    .unwrap();
    assert_eq!(lit(&a.methods[0]), "MY_FIELD");
    assert_eq!(a.casing().value, CasingStyle::ScreamingSnake);
}

#[test]
fn name_attribute_renames() {
    let a = field(
        "my_field",
        Ty::Other,
        vec![StructOptAttr::NameLitStr(sp("name"), sp("custom")), StructOptAttr::Long(sp("long"))],
        &[],
    )
    .unwrap();
    assert_eq!(a.cased_name().value, "custom");
    assert_eq!(names(&a.methods), vec!["long"]);
    assert_eq!(lit(&a.methods[0]), "custom");
}

#[test]
fn methods_and_lookup() {
    let a = field(
        "opt",
        Ty::Other,
        vec![
            StructOptAttr::NameLitStr(sp("default_value"), sp("3")),
            StructOptAttr::NameExpr(sp("min_values"), toks("1")),
            StructOptAttr::MethodCall(sp("possible_values"), toks("&[\"a\", \"b\"]")),
        ],
        &[" Some help."],
    )
    .unwrap();
    assert_eq!(names(&a.methods), vec!["help", "default_value", "min_values", "possible_values"]);
    assert_eq!(lit(&a.methods[0]), "Some help.");
    assert!(a.has_method("min_values"));
    assert!(!a.has_method("max_values"));
    assert_eq!(lit(a.find_method("default_value").unwrap()), "3");
    assert!(a.find_method("nothing").is_none());
    assert!(a.has_doc_methods());
    assert!(a.is_positional());
    assert_eq!(names(&a.field_methods()), names(&a.methods));
}

#[test]
fn doc_comment_split_into_short_and_long() {
    let a = field("x", Ty::Other, vec![StructOptAttr::Long(sp("long"))], &[" Short help.", "", " More text", " here."]).unwrap();
    assert_eq!(names(&a.methods), vec!["long_help", "help", "long"]);
    assert_eq!(lit(&a.methods[0]), "Short help.\n\nMore text here.");
    assert_eq!(lit(&a.methods[1]), "Short help");
}

#[test]
fn two_line_doc_is_not_split() {
    let a = field("x", Ty::Other, vec![], &[" One.", ""]).unwrap();
    assert_eq!(names(&a.methods), vec!["help"]);
    assert_eq!(lit(&a.methods[0]), "One.\n\n");
}

#[test]
fn custom_parser() {
    let spec = ParserSpec { kind: sp("from_os_str"), parse_func: None };
    let a = field("path", Ty::Other, vec![StructOptAttr::Parse(sp("parse"), spec)], &[]).unwrap();
    assert!(a.has_custom_parser);
    assert_eq!(a.parser().value.kind.value, ParserKind::FromOsStr);
}

#[test]
fn custom_parser_keeps_only_container_types() {
    let p = || StructOptAttr::Parse(sp("parse"), ParserSpec { kind: sp("try_from_str"), parse_func: Some(ParseFunc { is_path: true, tokens: toks("f"), span: Span::call_site() }) });
    let a = field("b", Ty::Bool, vec![p()], &[]).unwrap();
    assert!(matches!(a.kind().value, Kind::Arg(Sp { value: Ty::Other, .. })));
    let a = field("v", Ty::Vec, vec![p()], &[]).unwrap();
    assert!(matches!(a.kind().value, Kind::Arg(Sp { value: Ty::Vec, .. })));
}

#[test]
fn bool_flag_accepted() {
    let a = field("verbose", Ty::Bool, vec![StructOptAttr::Short(sp("short"))], &[]).unwrap();
    assert!(matches!(a.kind().value, Kind::Arg(Sp { value: Ty::Bool, .. })));
}

#[test]
fn subcommand_field() {
    let a = field("cmd", Ty::Option, vec![StructOptAttr::Subcommand(sp("subcommand"))], &[" Doc is fine."]).unwrap();
    assert!(matches!(a.kind().value, Kind::Subcommand(Sp { value: Ty::Option, .. })));
}

#[test]
fn flatten_and_skip_fields() {
    let a = field("common", Ty::Other, vec![StructOptAttr::Flatten(sp("flatten"))], &[]).unwrap();
    assert!(matches!(a.kind().value, Kind::FlattenStruct));
    let a = field("n", Ty::Other, vec![StructOptAttr::Skip(sp("skip"), Some(toks("42")))], &[" doc"]).unwrap();
    match a.kind().value {
        Kind::Skip(Some(t)) => assert_eq!(t.to_string(), "42"),
        _ => panic!("expected skip with a default"),
    }
}

#[test]
fn about_and_author_from_environment() {
    let a = strukt(vec![StructOptAttr::About(sp("about"), None), StructOptAttr::Author(sp("author"), None)], &[], &env()).unwrap();
    assert_eq!(lit(a.about.as_ref().unwrap()), "A tool.");
    assert_eq!(lit(a.author.as_ref().unwrap()), "Ann <ann@x.org>, Bob");
}

#[test]
fn given_author_is_processed() {
    let a = strukt(vec![StructOptAttr::Author(sp("author"), Some(sp("x:y")))], &[], &no_env()).unwrap();
    assert_eq!(lit(a.author.as_ref().unwrap()), "x, y");
}

#[test]
fn direct_lit_or_env() {
    let m = Method::from_lit_or_env(sp("about"), None, "CARGO_PKG_DESCRIPTION", Some("d:e".to_string())).unwrap();
    assert_eq!(lit(&m), "d:e");
    let e = Method::from_lit_or_env(sp("author"), None, "CARGO_PKG_AUTHORS", None).unwrap_err();
    assert_eq!(
        e.kind,
        AttrErrorKind::CannotDeriveFromCargo { attr: "author".to_string(), env_var: "CARGO_PKG_AUTHORS".to_string() }
    );
}

#[test]
fn top_level_order() {
    let a = strukt(
        vec![
            StructOptAttr::About(sp("about"), Some(sp("About it"))),
            StructOptAttr::NameLitStr(sp("setting"), sp("x")),
            StructOptAttr::Author(sp("author"), Some(sp("Me"))),
            StructOptAttr::Version(sp("version"), sp("2.0")),
        ],
        &[],
        &env(),
    )
    .unwrap();
    let ms = a.top_level_methods(Some("0.1.0".to_string())).unwrap();
    assert_eq!(names(&ms), vec!["author", "version", "setting", "about"]);
    assert_eq!(lit(&ms[1]), "2.0");
}

#[test]
fn top_level_version_from_environment() {
    let a = strukt(vec![], &[" The app."], &env()).unwrap();
    let ms = a.top_level_methods(Some("0.1.0".to_string())).unwrap();
    assert_eq!(names(&ms), vec!["version", "about"]);
    assert_eq!(lit(&ms[0]), "0.1.0");
    assert_eq!(lit(&ms[1]), "The app.");
    let ms = a.top_level_methods(None).unwrap();
    assert_eq!(names(&ms), vec!["about"]);
    let a = strukt(vec![StructOptAttr::NoVersion(sp("no_version"))], &[], &env()).unwrap();
    assert!(a.top_level_methods(Some("0.1.0".to_string())).unwrap().is_empty());
}

#[test]
fn error_no_version_with_version() {
    let a = strukt(vec![StructOptAttr::NoVersion(sp("no_version")), StructOptAttr::Version(sp("version"), sp("1"))], &[], &env()).unwrap();
    assert_eq!(a.top_level_methods(None).unwrap_err().kind, AttrErrorKind::NoVersionWithVersion);
}

#[test]
fn error_cannot_derive_about() {
    let e = err(strukt(vec![StructOptAttr::About(sp("about"), None)], &[], &no_env()));
    assert_eq!(
        e,
        AttrErrorKind::CannotDeriveFromCargo { attr: "about".to_string(), env_var: "CARGO_PKG_DESCRIPTION".to_string() }
    );
}

#[test]
fn error_unsupported_casing_in_attrs() {
    let e = err(field("x", Ty::Other, vec![StructOptAttr::RenameAll(sp("rename_all"), sp("upside-down"))], &[]));
    assert_eq!(e, AttrErrorKind::UnsupportedCasing("upsidedown".to_string()));
}

#[test]
fn error_parser_kinds_in_attrs() {
    let bad = StructOptAttr::Parse(sp("parse"), ParserSpec { kind: sp("from_nothing"), parse_func: None });
    assert_eq!(err(field("x", Ty::Other, vec![bad], &[])), AttrErrorKind::UnsupportedParser("from_nothing".to_string()));
    let os = StructOptAttr::Parse(sp("parse"), ParserSpec { kind: sp("try_from_os_str"), parse_func: None });
    assert_eq!(err(field("x", Ty::Other, vec![os], &[])), AttrErrorKind::TryFromOsStrNeedsFunction);
    let f = ParseFunc { is_path: false, tokens: toks("1 + 1"), span: Span::call_site() };
    let np = StructOptAttr::Parse(sp("parse"), ParserSpec { kind: sp("from_str"), parse_func: Some(f) });
    assert_eq!(err(field("x", Ty::Other, vec![np], &[])), AttrErrorKind::ParseFunctionNotPath);
}

#[test]
fn error_kind_conflict() {
    let e = err(field("x", Ty::Other, vec![StructOptAttr::Subcommand(sp("subcommand")), StructOptAttr::Flatten(sp("flatten"))], &[]));
    assert_eq!(e, AttrErrorKind::KindConflict);
    let e = err(field("x", Ty::Other, vec![StructOptAttr::Skip(sp("skip"), None), StructOptAttr::Skip(sp("skip"), None)], &[]));
    assert_eq!(e, AttrErrorKind::KindConflict);
}

#[test]
fn error_only_on_fields() {
    let parse = StructOptAttr::Parse(sp("parse"), ParserSpec { kind: sp("from_str"), parse_func: None });
    assert_eq!(err(strukt(vec![parse], &[], &env())), AttrErrorKind::ParseOnlyOnFields);
    assert_eq!(err(strukt(vec![StructOptAttr::Subcommand(sp("subcommand"))], &[], &env())), AttrErrorKind::SubcommandOnlyOnFields);
    assert_eq!(err(strukt(vec![StructOptAttr::Flatten(sp("flatten"))], &[], &env())), AttrErrorKind::FlattenOnlyOnFields);
    assert_eq!(err(strukt(vec![StructOptAttr::Skip(sp("skip"), None)], &[], &env())), AttrErrorKind::SkipOnlyOnFields);
}

#[test]
fn error_flatten_rules() {
    let parse = StructOptAttr::Parse(sp("parse"), ParserSpec { kind: sp("from_str"), parse_func: None });
    assert_eq!(err(field("x", Ty::Other, vec![StructOptAttr::Flatten(sp("flatten")), parse], &[])), AttrErrorKind::ParseOnFlatten);
    assert_eq!(err(field("x", Ty::Other, vec![StructOptAttr::Flatten(sp("flatten"))], &[" doc"])), AttrErrorKind::MethodsOnFlatten);
    assert_eq!(
        err(field("x", Ty::Other, vec![StructOptAttr::Flatten(sp("flatten")), StructOptAttr::Long(sp("long"))], &[])),
        AttrErrorKind::MethodsOnFlatten
    );
}

#[test]
fn error_subcommand_rules() {
    let parse = StructOptAttr::Parse(sp("parse"), ParserSpec { kind: sp("from_str"), parse_func: None });
    let sub = || StructOptAttr::Subcommand(sp("subcommand"));
    assert_eq!(err(field("x", Ty::Other, vec![sub(), parse], &[])), AttrErrorKind::ParseOnSubcommand);
    assert_eq!(
        err(field("x", Ty::Other, vec![sub(), StructOptAttr::NameExpr(sp("alias"), toks("\"c\""))], &[])),
        AttrErrorKind::MethodsOnSubcommand
    );
    assert_eq!(err(field("x", Ty::OptionOption, vec![sub()], &[])), AttrErrorKind::OptionOptionSubcommand);
    assert_eq!(err(field("x", Ty::OptionVec, vec![sub()], &[])), AttrErrorKind::OptionVecSubcommand);
}

#[test]
fn error_skip_rules() {
    let e = err(field("x", Ty::Other, vec![StructOptAttr::Skip(sp("skip"), None), StructOptAttr::Long(sp("long"))], &[]));
    assert_eq!(e, AttrErrorKind::MethodsOnSkip);
}

#[test]
fn error_bool_rules() {
    assert_eq!(err(field("b", Ty::Bool, vec![], &[])), AttrErrorKind::PositionalBool);
    assert_eq!(
        err(field("b", Ty::Bool, vec![StructOptAttr::Long(sp("long")), StructOptAttr::NameLitStr(sp("default_value"), sp("true"))], &[])),
        AttrErrorKind::DefaultValueOnBool
    );
    assert_eq!(
        err(field("b", Ty::Bool, vec![StructOptAttr::Long(sp("long")), StructOptAttr::NameExpr(sp("required"), toks("true"))], &[])),
        AttrErrorKind::RequiredOnBool
    );
}

#[test]
fn error_option_rules() {
    assert_eq!(
        err(field("o", Ty::Option, vec![StructOptAttr::NameLitStr(sp("default_value"), sp("1"))], &[])),
        AttrErrorKind::DefaultValueOnOption
    );
    assert_eq!(
        err(field("o", Ty::Option, vec![StructOptAttr::NameExpr(sp("required"), toks("true"))], &[])),
        AttrErrorKind::RequiredOnOption
    );
    assert_eq!(err(field("o", Ty::OptionOption, vec![], &[])), AttrErrorKind::PositionalOptionOption);
    assert_eq!(err(field("o", Ty::OptionVec, vec![], &[])), AttrErrorKind::PositionalOptionVec);
    let a = field("o", Ty::OptionVec, vec![StructOptAttr::Long(sp("long"))], &[]).unwrap();
    assert!(matches!(a.kind().value, Kind::Arg(Sp { value: Ty::OptionVec, .. })));
}

#[test]
fn first_error_wins() {
    let e = err(field(
        "x",
        Ty::Other,
        vec![StructOptAttr::RenameAll(sp("rename_all"), sp("bad")), StructOptAttr::About(sp("about"), None)],
        &[],
    ));
    assert_eq!(e, AttrErrorKind::UnsupportedCasing("bad".to_string()));
}
