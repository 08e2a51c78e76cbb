use proc_macro2::Span;
use structopt_derive::casing::{CasingStyle, Name};
use structopt_derive::error::AttrErrorKind;
use structopt_derive::tokens::Sp;

fn sp(s: &str) -> Sp<String> {
    Sp::new(s.to_string(), Span::call_site())
}

#[test]
fn normalized_names() {
    let cases = [
        ("camel", CasingStyle::Camel),
        ("camelcase", CasingStyle::Camel),
        ("kebab", CasingStyle::Kebab),
        ("kebabcase", CasingStyle::Kebab),
        ("pascal", CasingStyle::Pascal),
        ("pascalcase", CasingStyle::Pascal),
        ("screamingsnake", CasingStyle::ScreamingSnake),
        ("screamingsnakecase", CasingStyle::ScreamingSnake),
        ("snake", CasingStyle::Snake),
        ("snakecase", CasingStyle::Snake),
        ("verbatim", CasingStyle::Verbatim),
        ("verbatimcase", CasingStyle::Verbatim),
    ];
    for (s, cs) in cases.iter() {
        assert_eq!(CasingStyle::from_normalized(s), Some(*cs));
    }
    assert_eq!(CasingStyle::from_normalized("kebab-case"), None);
    assert_eq!(CasingStyle::from_normalized(""), None);
}

#[test]
fn rename_all_values() {
    let cases = [
        ("kebab-case", CasingStyle::Kebab),
        ("KebabCase", CasingStyle::Kebab),
        ("kebab", CasingStyle::Kebab),
        ("KEBAB", CasingStyle::Kebab),
        ("camelCase", CasingStyle::Camel),
        ("PascalCase", CasingStyle::Pascal),
        ("screaming_snake", CasingStyle::ScreamingSnake),
        ("SCREAMING_SNAKE_CASE", CasingStyle::ScreamingSnake),
        ("snake_case", CasingStyle::Snake),
        ("verbatim", CasingStyle::Verbatim),
    ];
    for (s, cs) in cases.iter() {
        assert_eq!(CasingStyle::from_lit(sp(s)).unwrap().value, *cs, "{}", s);
    }
}

#[test]
fn unsupported_casing() {
    let e = CasingStyle::from_lit(sp("foo-bar")).unwrap_err();
    assert_eq!(e.kind, AttrErrorKind::UnsupportedCasing("foobar".to_string()));
}

#[test]
fn derived_name_in_each_style() {
    let cases = [
        (CasingStyle::Pascal, "MyField"),
        (CasingStyle::Kebab, "my-field"),
        (CasingStyle::Camel, "myField"),
        (CasingStyle::ScreamingSnake, "MY_FIELD"),
        (CasingStyle::Snake, "my_field"),
        (CasingStyle::Verbatim, "my_field"),
    ];
    for (style, expected) in cases.iter() {
        assert_eq!(Name::Derived(sp("my_field")).translate(*style).value, *expected);
    }
}

#[test]
fn raw_identifier_loses_prefix() {
    assert_eq!(Name::Derived(sp("r#type")).translate(CasingStyle::Verbatim).value, "type");
    assert_eq!(Name::Derived(sp("r#type")).translate(CasingStyle::ScreamingSnake).value, "TYPE");
    assert_eq!(Name::Derived(sp("r")).translate(CasingStyle::Verbatim).value, "r");
}

#[test]
fn assigned_name_ignores_casing() {
    for style in [CasingStyle::Pascal, CasingStyle::Kebab, CasingStyle::Verbatim].iter() {
        assert_eq!(Name::Assigned(sp("My-Name")).translate(*style).value, "My-Name");
    }
}

#[test]
fn translate_ref_matches_translate() {
    let n = Name::Derived(sp("someValue"));
    assert_eq!(n.translate_ref(CasingStyle::Kebab).value, "some-value");
    assert_eq!(n.translate(CasingStyle::Snake).value, "some_value");
}
