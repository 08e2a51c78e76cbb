//! The attributes of a struct or of a field, read into what the generated
//! code needs: the argument's name and casing, the builder methods to call,
//! the parser, and what kind of entry the field is.

use vstd::prelude::*;
use proc_macro2::{Span, TokenStream};
use crate::author::{process_author_str, processed_author};
use crate::casing::{casing_from_lit, translated, CasingStyle, Name, NameView};
use crate::doc::{
    doc_comment_lines, doc_lines, doc_split_expected, merge_doc_lines, merged_doc, short_doc,
    short_doc_help, string_views,
};
use crate::error::{AttrError, AttrErrorKind, AttrErrorKindView, AttrErrorView};
use crate::parser::{default_parser, parser_from_spec, ParseFunc, Parser, ParserSpec};
use crate::text::str_eq;
use crate::tokens::{call_site, clone_tokens, copy_sp_string, Sp};

verus! {

/// The shape of a field's type, as far as it changes how the field is read.
#[derive(Copy, Clone, Debug, PartialEq, Eq, Structural)]
pub enum Ty {
    Bool,
    Vec,
    Option,
    OptionOption,
    OptionVec,
    Other,
}

/// What a field is: an argument, a subcommand, a flattened struct, or a
/// skipped field with an optional default expression.
#[derive(Debug)]
pub enum Kind {
    Arg(Sp<Ty>),
    Subcommand(Sp<Ty>),
    FlattenStruct,
    Skip(Option<TokenStream>),
}

/// The argument of a builder method call.
#[derive(Debug)]
pub enum MethodArgs {
    /// A string literal at a position.
    Lit(Sp<String>),
    /// A string literal at the macro's call site.
    Text(String),
    /// Expressions given by the user, already separated by commas.
    Tokens(TokenStream),
}

/// A builder method call `.name(args)`.
#[derive(Debug)]
pub struct Method {
    pub name: Sp<String>,
    pub args: MethodArgs,
}

/// An argument seen with its strings as characters.
pub enum MethodArgsView {
    Lit((Seq<char>, Span)),
    Text(Seq<char>),
    Tokens(TokenStream),
}

/// A method call seen with its strings as characters.
pub struct MethodView {
    pub name: (Seq<char>, Span),
    pub args: MethodArgsView,
}

impl View for MethodArgs {
    type V = MethodArgsView;

    open spec fn view(&self) -> MethodArgsView {
        match self {
            MethodArgs::Lit(s) => MethodArgsView::Lit(s@),
            MethodArgs::Text(s) => MethodArgsView::Text(s@),
            MethodArgs::Tokens(t) => MethodArgsView::Tokens(*t),
        }
    }
}

impl View for Method {
    type V = MethodView;

    open spec fn view(&self) -> MethodView {
        MethodView { name: self.name@, args: self.args@ }
    }
}

/// One attribute inside `#[structopt(...)]`, as the attribute parser gives it.
#[derive(Debug)]
pub enum StructOptAttr {
    Short(Sp<String>),
    Long(Sp<String>),
    Flatten(Sp<String>),
    Subcommand(Sp<String>),
    NoVersion(Sp<String>),
    About(Sp<String>, Option<Sp<String>>),
    Author(Sp<String>, Option<Sp<String>>),
    Version(Sp<String>, Sp<String>),
    RenameAll(Sp<String>, Sp<String>),
    NameLitStr(Sp<String>, Sp<String>),
    Parse(Sp<String>, ParserSpec),
    Skip(Sp<String>, Option<TokenStream>),
    NameExpr(Sp<String>, TokenStream),
    MethodCall(Sp<String>, TokenStream),
}

/// The package metadata that Cargo passes in the environment, where set.
#[derive(Debug)]
pub struct PackageEnv {
    /// `CARGO_PKG_DESCRIPTION`
    pub description: Option<String>,
    /// `CARGO_PKG_AUTHORS`
    pub authors: Option<String>,
    /// `CARGO_PKG_VERSION`
    pub version: Option<String>,
}

/// Everything the attributes of one struct or field say.
#[derive(Debug)]
pub struct Attrs {
    pub name: Name,
    pub casing: Sp<CasingStyle>,
    pub methods: Vec<Method>,
    pub parser: Sp<Parser>,
    pub author: Option<Method>,
    pub about: Option<Method>,
    pub version: Option<Method>,
    pub no_version: Option<Sp<String>>,
    pub has_custom_parser: bool,
    pub kind: Sp<Kind>,
}

/// The attributes seen with their strings as characters.
pub struct AttrsView {
    pub name: NameView,
    pub casing: Sp<CasingStyle>,
    pub methods: Seq<MethodView>,
    pub parser: Sp<Parser>,
    pub author: Option<MethodView>,
    pub about: Option<MethodView>,
    pub version: Option<MethodView>,
    pub no_version: Option<(Seq<char>, Span)>,
    pub has_custom_parser: bool,
    pub kind: Sp<Kind>,
}

pub open spec fn opt_method_view(m: Option<Method>) -> Option<MethodView> {
    match m {
        Some(m) => Some(m@),
        None => None,
    }
}

pub open spec fn opt_sp_view(s: Option<Sp<String>>) -> Option<(Seq<char>, Span)> {
    match s {
        Some(s) => Some(s@),
        None => None,
    }
}

pub open spec fn opt_string_view(s: Option<String>) -> Option<Seq<char>> {
    match s {
        Some(s) => Some(s@),
        None => None,
    }
}

pub open spec fn method_views(ms: Seq<Method>) -> Seq<MethodView> {
    ms.map_values(|m: Method| m@)
}

impl View for Attrs {
    type V = AttrsView;

    open spec fn view(&self) -> AttrsView {
        AttrsView {
            name: self.name@,
            casing: self.casing,
            methods: method_views(self.methods@),
            parser: self.parser,
            author: opt_method_view(self.author),
            about: opt_method_view(self.about),
            version: opt_method_view(self.version),
            no_version: opt_sp_view(self.no_version),
            has_custom_parser: self.has_custom_parser,
            kind: self.kind,
        }
    }
}

/// Attributes seen as their view, errors as theirs.
pub open spec fn attrs_result_view(r: Result<Attrs, AttrError>) -> Result<AttrsView, AttrErrorView> {
    match r {
        Ok(a) => Ok(a@),
        Err(e) => Err(e@),
    }
}

// ---------------------------------------------------------------------------
// What each step does, over the views.

/// The index of the first method with this name, if any.
pub open spec fn first_named(ms: Seq<MethodView>, name: Seq<char>) -> Option<int>
    decreases ms.len(),
{
    if ms.len() == 0 {
        None
    } else if ms[0].name.0 == name {
        Some(0)
    } else {
        match first_named(ms.drop_first(), name) {
            Some(i) => Some(i + 1),
            None => None,
        }
    }
}

/// Whether some method has this name.
pub open spec fn has_named(ms: Seq<MethodView>, name: Seq<char>) -> bool {
    exists|i: int| 0 <= i < ms.len() && ms[i].name.0 == name
}

/// An argument is positional when no method makes it a `long` or `short` flag.
pub open spec fn positional(ms: Seq<MethodView>) -> bool {
    forall|i: int| 0 <= i < ms.len() ==> ms[i].name.0 != "long"@ && ms[i].name.0 != "short"@
}

/// Some method is neither `help` nor `long_help`.
pub open spec fn explicit_methods(ms: Seq<MethodView>) -> bool {
    exists|i: int| 0 <= i < ms.len() && ms[i].name.0 != "help"@ && ms[i].name.0 != "long_help"@
}

/// Some method is `help` or `long_help`.
pub open spec fn doc_methods(ms: Seq<MethodView>) -> bool {
    exists|i: int| 0 <= i < ms.len() && (ms[i].name.0 == "help"@ || ms[i].name.0 == "long_help"@)
}

/// Fresh attributes: no methods, the default parser, an argument of an
/// unknown type.
pub open spec fn attrs_new(span: Span, name: NameView, casing: Sp<CasingStyle>) -> AttrsView {
    AttrsView {
        name,
        casing,
        methods: Seq::empty(),
        parser: default_parser(span),
        author: None,
        about: None,
        version: None,
        no_version: None,
        has_custom_parser: false,
        kind: Sp { value: Kind::Arg(Sp { value: Ty::Other, span }), span },
    }
}

/// `name = "..."` renames the argument; any other `method = "..."` becomes a
/// method call with that string.
pub open spec fn push_str_method(a: AttrsView, name: (Seq<char>, Span), arg: (Seq<char>, Span)) -> AttrsView {
    if name.0 == "name"@ {
        AttrsView { name: NameView::Assigned(arg), ..a }
    } else {
        AttrsView { methods: a.methods.push(MethodView { name, args: MethodArgsView::Lit(arg) }), ..a }
    }
}

/// A method call with expression arguments appended.
pub open spec fn push_expr_method(a: AttrsView, name: (Seq<char>, Span), args: TokenStream) -> AttrsView {
    AttrsView { methods: a.methods.push(MethodView { name, args: MethodArgsView::Tokens(args) }), ..a }
}

/// Makes the entry a subcommand, flattened struct or skipped field; only one
/// of them may be chosen.
pub open spec fn set_kind(a: AttrsView, kind: Sp<Kind>) -> Result<AttrsView, AttrErrorView> {
    if a.kind.value is Arg {
        Ok(AttrsView { kind, ..a })
    } else {
        Err(AttrErrorView { kind: AttrErrorKindView::KindConflict, span: kind.span })
    }
}

/// `about` or `author`: the given string, else the value from the
/// environment at the attribute's position; an author list is written with
/// `, ` between authors.
pub open spec fn lit_or_env_method(
    ident: (Seq<char>, Span),
    lit: Option<(Seq<char>, Span)>,
    env_var: Seq<char>,
    env_value: Option<Seq<char>>,
) -> Result<MethodView, AttrErrorView> {
    let chosen: Option<(Seq<char>, Span)> = match lit {
        Some(l) => Some(l),
        None => match env_value {
            Some(v) => Some((v, ident.1)),
            None => None,
        },
    };
    match chosen {
        None => Err(AttrErrorView {
            kind: AttrErrorKindView::CannotDeriveFromCargo { attr: ident.0, env_var },
            span: ident.1,
        }),
        Some(l) => {
            let l2 = if ident.0 == "author"@ { (processed_author(l.0), l.1) } else { l };
            Ok(MethodView { name: ident, args: MethodArgsView::Lit(l2) })
        },
    }
}

/// What one attribute does to the attributes read so far; `cs` is the
/// macro's call site.
pub open spec fn apply_attr(a: AttrsView, attr: StructOptAttr, env: PackageEnv, cs: Span) -> Result<AttrsView, AttrErrorView> {
    match attr {
        StructOptAttr::Short(id) => Ok(push_str_method(a, id@, translated(a.name, a.casing.value))),
        StructOptAttr::Long(id) => Ok(push_str_method(a, id@, translated(a.name, a.casing.value))),
        StructOptAttr::Subcommand(id) =>
            set_kind(a, Sp { value: Kind::Subcommand(Sp { value: Ty::Other, span: cs }), span: id.span }),
        StructOptAttr::Flatten(id) => set_kind(a, Sp { value: Kind::FlattenStruct, span: id.span }),
        StructOptAttr::Skip(id, expr) => set_kind(a, Sp { value: Kind::Skip(expr), span: id.span }),
        StructOptAttr::NoVersion(id) => Ok(AttrsView { no_version: Some(id@), ..a }),
        StructOptAttr::About(id, about) =>
            match lit_or_env_method(id@, opt_sp_view(about), "CARGO_PKG_DESCRIPTION"@, opt_string_view(env.description)) {
                Ok(m) => Ok(AttrsView { about: Some(m), ..a }),
                Err(e) => Err(e),
            },
        StructOptAttr::Author(id, author) =>
            match lit_or_env_method(id@, opt_sp_view(author), "CARGO_PKG_AUTHORS"@, opt_string_view(env.authors)) {
                Ok(m) => Ok(AttrsView { author: Some(m), ..a }),
                Err(e) => Err(e),
            },
        StructOptAttr::Version(id, v) =>
            Ok(AttrsView { version: Some(MethodView { name: id@, args: MethodArgsView::Lit(v@) }), ..a }),
        StructOptAttr::NameLitStr(name, lit) => Ok(push_str_method(a, name@, lit@)),
        StructOptAttr::NameExpr(name, expr) => Ok(push_expr_method(a, name@, expr)),
        StructOptAttr::MethodCall(name, args) => Ok(push_expr_method(a, name@, args)),
        StructOptAttr::RenameAll(_id, lit) => match casing_from_lit(lit@) {
            Ok((cs2, sp)) => Ok(AttrsView { casing: Sp { value: cs2, span: sp }, ..a }),
            Err(e) => Err(e),
        },
        StructOptAttr::Parse(id, spec) => match parser_from_spec(id.span, spec) {
            Ok(p) => Ok(AttrsView { has_custom_parser: true, parser: p, ..a }),
            Err(e) => Err(e),
        },
    }
}

/// The attributes applied in order; the first refused one stops the rest.
pub open spec fn apply_attrs(a: AttrsView, attrs: Seq<StructOptAttr>, env: PackageEnv, cs: Span) -> Result<AttrsView, AttrErrorView>
    decreases attrs.len(),
{
    if attrs.len() == 0 {
        Ok(a)
    } else {
        match apply_attrs(a, attrs.drop_last(), env, cs) {
            Ok(b) => apply_attr(b, attrs.last(), env, cs),
            Err(e) => Err(e),
        }
    }
}

/// The methods that doc comments add: the merged text as `name`, or, when
/// the comment has a short and a long part, the merged text as `long_name`
/// followed by the short part as `name`.
pub open spec fn doc_comment_methods(values: Seq<Seq<char>>, name: Seq<char>, cs: Span) -> Seq<MethodView> {
    let lines = doc_lines(values);
    if lines.len() == 0 {
        Seq::empty()
    } else if doc_split_expected(lines) {
        seq![
            MethodView { name: ("long_"@ + name, cs), args: MethodArgsView::Text(merged_doc(lines)) },
            MethodView { name: (name, cs), args: MethodArgsView::Text(short_doc(lines[0])) },
        ]
    } else {
        seq![MethodView { name: (name, cs), args: MethodArgsView::Text(merged_doc(lines)) }]
    }
}

/// The attributes with the doc comment's methods appended.
pub open spec fn push_doc(a: AttrsView, values: Seq<Seq<char>>, name: Seq<char>, cs: Span) -> AttrsView {
    AttrsView { methods: a.methods + doc_comment_methods(values, name, cs), ..a }
}

/// The attributes of a struct or enum, or why they are refused.
pub open spec fn attrs_of_struct(
    span: Span,
    attrs: Seq<StructOptAttr>,
    docs: Seq<Seq<char>>,
    name: NameView,
    casing: Sp<CasingStyle>,
    env: PackageEnv,
    cs: Span,
) -> Result<AttrsView, AttrErrorView> {
    match apply_attrs(attrs_new(span, name, casing), attrs, env, cs) {
        Err(e) => Err(e),
        Ok(a1) => {
            let a = push_doc(a1, docs, "about"@, cs);
            if a.has_custom_parser {
                Err(AttrErrorView { kind: AttrErrorKindView::ParseOnlyOnFields, span: a.parser.span })
            } else {
                match a.kind.value {
                    Kind::Subcommand(_) => Err(AttrErrorView { kind: AttrErrorKindView::SubcommandOnlyOnFields, span: a.kind.span }),
                    Kind::FlattenStruct => Err(AttrErrorView { kind: AttrErrorKindView::FlattenOnlyOnFields, span: a.kind.span }),
                    Kind::Skip(_) => Err(AttrErrorView { kind: AttrErrorKindView::SkipOnlyOnFields, span: a.kind.span }),
                    Kind::Arg(_) => Ok(a),
                }
            }
        },
    }
}

/// The error at the first method with this name, if any.
pub open spec fn error_at_method(ms: Seq<MethodView>, name: Seq<char>, kind: AttrErrorKindView) -> Option<AttrErrorView> {
    match first_named(ms, name) {
        Some(i) => Some(AttrErrorView { kind, span: ms[i].name.1 }),
        None => None,
    }
}

/// The type an argument is read as: with a custom parser, only `Option`,
/// `Vec` and `Option<Vec>` keep their meaning.
pub open spec fn arg_ty(has_custom_parser: bool, ty: Sp<Ty>) -> Sp<Ty> {
    if has_custom_parser && !(ty.value == Ty::Option || ty.value == Ty::Vec || ty.value == Ty::OptionVec) {
        Sp { value: Ty::Other, span: ty.span }
    } else {
        ty
    }
}

/// What is wrong with an argument of this type, if anything.
pub open spec fn arg_error(a: AttrsView, ty: Sp<Ty>) -> Option<AttrErrorView> {
    match ty.value {
        Ty::Bool => if positional(a.methods) && !a.has_custom_parser {
            Some(AttrErrorView { kind: AttrErrorKindView::PositionalBool, span: ty.span })
        } else if first_named(a.methods, "default_value"@) is Some {
            error_at_method(a.methods, "default_value"@, AttrErrorKindView::DefaultValueOnBool)
        } else {
            error_at_method(a.methods, "required"@, AttrErrorKindView::RequiredOnBool)
        },
        Ty::Option => if first_named(a.methods, "default_value"@) is Some {
            error_at_method(a.methods, "default_value"@, AttrErrorKindView::DefaultValueOnOption)
        } else {
            error_at_method(a.methods, "required"@, AttrErrorKindView::RequiredOnOption)
        },
        Ty::OptionOption => if positional(a.methods) {
            Some(AttrErrorView { kind: AttrErrorKindView::PositionalOptionOption, span: ty.span })
        } else {
            None
        },
        Ty::OptionVec => if positional(a.methods) {
            Some(AttrErrorView { kind: AttrErrorKindView::PositionalOptionVec, span: ty.span })
        } else {
            None
        },
        _ => None,
    }
}

/// The checks on a field once its attributes are read, and the field's type
/// put into its kind.
pub open spec fn check_field(a: AttrsView, ty: Sp<Ty>) -> Result<AttrsView, AttrErrorView> {
    match a.kind.value {
        Kind::FlattenStruct => if a.has_custom_parser {
            Err(AttrErrorView { kind: AttrErrorKindView::ParseOnFlatten, span: a.parser.span })
        } else if explicit_methods(a.methods) || doc_methods(a.methods) {
            Err(AttrErrorView { kind: AttrErrorKindView::MethodsOnFlatten, span: a.kind.span })
        } else {
            Ok(a)
        },
        Kind::Subcommand(_) => if a.has_custom_parser {
            Err(AttrErrorView { kind: AttrErrorKindView::ParseOnSubcommand, span: a.parser.span })
        } else if explicit_methods(a.methods) {
            Err(AttrErrorView { kind: AttrErrorKindView::MethodsOnSubcommand, span: a.kind.span })
        } else if ty.value == Ty::OptionOption {
            Err(AttrErrorView { kind: AttrErrorKindView::OptionOptionSubcommand, span: ty.span })
        } else if ty.value == Ty::OptionVec {
            Err(AttrErrorView { kind: AttrErrorKindView::OptionVecSubcommand, span: ty.span })
        } else {
            Ok(AttrsView { kind: Sp { value: Kind::Subcommand(ty), span: a.kind.span }, ..a })
        },
        Kind::Skip(_) => if explicit_methods(a.methods) {
            Err(AttrErrorView { kind: AttrErrorKindView::MethodsOnSkip, span: a.kind.span })
        } else {
            Ok(a)
        },
        Kind::Arg(orig) => {
            let t = arg_ty(a.has_custom_parser, ty);
            match arg_error(a, t) {
                Some(e) => Err(e),
                None => Ok(AttrsView { kind: Sp { value: Kind::Arg(t), span: orig.span }, ..a }),
            }
        },
    }
}

/// The attributes of a named field, or why they are refused.
pub open spec fn attrs_of_field(
    span: Span,
    ident: (Seq<char>, Span),
    ty: Sp<Ty>,
    attrs: Seq<StructOptAttr>,
    docs: Seq<Seq<char>>,
    casing: Sp<CasingStyle>,
    env: PackageEnv,
    cs: Span,
) -> Result<AttrsView, AttrErrorView> {
    let a0 = push_doc(attrs_new(span, NameView::Derived(ident), casing), docs, "help"@, cs);
    match apply_attrs(a0, attrs, env, cs) {
        Err(e) => Err(e),
        Ok(a) => check_field(a, ty),
    }
}

/// The methods emitted on top of a struct or enum: author, version, the
/// other methods, about. The version is the given one, else the package
/// version unless `no_version` is set; both at once are refused.
pub open spec fn top_level(a: AttrsView, pkg_version: Option<Seq<char>>, cs: Span) -> Result<Seq<MethodView>, AttrErrorView> {
    let version: Result<Seq<MethodView>, AttrErrorView> = match (a.no_version, a.version) {
        (Some(nv), Some(_)) => Err(AttrErrorView { kind: AttrErrorKindView::NoVersionWithVersion, span: nv.1 }),
        (None, Some(m)) => Ok(seq![m]),
        (None, None) => match pkg_version {
            Some(v) => Ok(seq![MethodView { name: ("version"@, cs), args: MethodArgsView::Text(v) }]),
            None => Ok(Seq::empty()),
        },
        (Some(_), None) => Ok(Seq::empty()),
    };
    match version {
        Err(e) => Err(e),
        Ok(vs) => Ok(opt_seq(a.author) + vs + a.methods + opt_seq(a.about)),
    }
}

/// Method lists seen as their views, errors as theirs.
pub open spec fn methods_result_view(r: Result<Vec<Method>, AttrError>) -> Result<Seq<MethodView>, AttrErrorView> {
    match r {
        Ok(ms) => Ok(method_views(ms@)),
        Err(e) => Err(e@),
    }
}

/// An optional method as a sequence of at most one.
pub open spec fn opt_seq(m: Option<MethodView>) -> Seq<MethodView> {
    match m {
        Some(m) => seq![m],
        None => Seq::empty(),
    }
}

} // verus!

verus! {

fn clone_opt_sp_string(o: &Option<Sp<String>>) -> (res: Option<Sp<String>>)
    ensures
        res == *o,
{
    match o {
        Some(s) => Some(copy_sp_string(s)),
        None => None,
    }
}

fn clone_opt_tokens(o: &Option<TokenStream>) -> (res: Option<TokenStream>)
    ensures
        res == *o,
{
    match o {
        Some(t) => Some(clone_tokens(t)),
        None => None,
    }
}

fn clone_parser_spec(s: &ParserSpec) -> (res: ParserSpec)
    ensures
        res == *s,
{
    let parse_func = match &s.parse_func {
        Some(f) => Some(ParseFunc { is_path: f.is_path, tokens: clone_tokens(&f.tokens), span: f.span }),
        None => None,
    };
    ParserSpec { kind: copy_sp_string(&s.kind), parse_func }
}

fn clone_method_args(a: &MethodArgs) -> (res: MethodArgs)
    ensures
        res == *a,
{
    match a {
        MethodArgs::Lit(s) => MethodArgs::Lit(copy_sp_string(s)),
        MethodArgs::Text(s) => MethodArgs::Text(s.clone()),
        MethodArgs::Tokens(t) => MethodArgs::Tokens(clone_tokens(t)),
    }
}

fn clone_method(m: &Method) -> (res: Method)
    ensures
        res == *m,
{
    Method { name: copy_sp_string(&m.name), args: clone_method_args(&m.args) }
}

fn clone_kind(k: &Sp<Kind>) -> (res: Sp<Kind>)
    ensures
        res == *k,
{
    let value = match &k.value {
        Kind::Arg(t) => Kind::Arg(Sp::new(t.value, t.span)),
        Kind::Subcommand(t) => Kind::Subcommand(Sp::new(t.value, t.span)),
        Kind::FlattenStruct => Kind::FlattenStruct,
        Kind::Skip(e) => Kind::Skip(clone_opt_tokens(e)),
    };
    Sp::new(value, k.span)
}

impl Method {
    /// The call `.name(args)`.
    pub fn new(name: Sp<String>, args: MethodArgs) -> (res: Method)
        ensures
            res.name == name,
            res.args == args,
    {
        Method { name, args }
    }

    /// `about` or `author`: the given string, else `env_value`, the value of
    /// the environment variable `env_var`; refused when neither is there.
    pub fn from_lit_or_env(ident: Sp<String>, lit: Option<Sp<String>>, env_var: &str, env_value: Option<String>)
        -> (res: Result<Method, AttrError>)
        ensures
            match res {
                Ok(m) => lit_or_env_method(ident@, opt_sp_view(lit), env_var@, opt_string_view(env_value)) == Ok::<_, AttrErrorView>(m@),
                Err(e) => lit_or_env_method(ident@, opt_sp_view(lit), env_var@, opt_string_view(env_value)) == Err::<MethodView, _>(e@),
            },
    {
        let lit = match lit {
            Some(l) => l,
            None => match env_value {
                Some(v) => Sp::new(v, ident.span),
                None => {
                    let span = ident.span;
                    return Err(AttrError {
                        kind: AttrErrorKind::CannotDeriveFromCargo { attr: ident.value, env_var: String::from_str(env_var) },
                        span,
                    });
                },
            },
        };
        let lit = if str_eq(ident.value.as_str(), "author") {
            let edited = process_author_str(lit.value.as_str());
            Sp::new(edited, lit.span)
        } else {
            lit
        };
        Ok(Method { name: ident, args: MethodArgs::Lit(lit) })
    }
}

} // verus!

verus! {

impl Attrs {
    fn new(default_span: Span, name: Name, casing: Sp<CasingStyle>) -> (res: Attrs)
        ensures
            res@ == attrs_new(default_span, name@, casing),
    {
        let res = Attrs {
            name,
            casing,
            methods: Vec::new(),
            parser: Parser::default_spanned(default_span),
            about: None,
            author: None,
            version: None,
            no_version: None,
            has_custom_parser: false,
            kind: Sp::new(Kind::Arg(Sp::new(Ty::Other, default_span)), default_span),
        };
        assert(res@.methods =~= Seq::<MethodView>::empty());
        res
    }

    fn push_method(&mut self, m: Method)
        ensures
            final(self)@ == (AttrsView { methods: old(self)@.methods.push(m@), ..old(self)@ }),
    {
        let ghost prev = self.methods@;
        self.methods.push(m);
        assert(method_views(self.methods@) =~= method_views(prev).push(m@));
    }

    /// push `.method("str literal")`
    fn push_str_method(&mut self, name: Sp<String>, arg: Sp<String>)
        ensures
            final(self)@ == push_str_method(old(self)@, name@, arg@),
    {
        if str_eq(name.value.as_str(), "name") {
            self.name = Name::Assigned(arg);
        } else {
            self.push_method(Method::new(name, MethodArgs::Lit(arg)));
        }
    }

    fn set_kind(&mut self, kind: Sp<Kind>) -> (res: Result<(), AttrError>)
        ensures
            match res {
                Ok(()) => set_kind(old(self)@, kind) == Ok::<_, AttrErrorView>(final(self)@),
                Err(e) => set_kind(old(self)@, kind) == Err::<AttrsView, _>(e@),
            },
    {
        if let Kind::Arg(_) = self.kind.value {
            self.kind = kind;
            Ok(())
        } else {
            Err(AttrError { kind: AttrErrorKind::KindConflict, span: kind.span })
        }
    }

    /// Applies one attribute.
    fn push_attr(&mut self, attr: &StructOptAttr, env: &PackageEnv, cs: Span) -> (res: Result<(), AttrError>)
        ensures
            match res {
                Ok(()) => apply_attr(old(self)@, *attr, *env, cs) == Ok::<_, AttrErrorView>(final(self)@),
                Err(e) => apply_attr(old(self)@, *attr, *env, cs) == Err::<AttrsView, _>(e@),
            },
    {
        match attr {
            StructOptAttr::Short(ident) | StructOptAttr::Long(ident) => {
                let arg = self.name.translate_ref(self.casing.value);
                self.push_str_method(copy_sp_string(ident), arg);
                Ok(())
            },
            StructOptAttr::Subcommand(ident) => {
                let ty = Sp::new(Ty::Other, cs);
                self.set_kind(Sp::new(Kind::Subcommand(ty), ident.span))
            },
            StructOptAttr::Flatten(ident) => self.set_kind(Sp::new(Kind::FlattenStruct, ident.span)),
            StructOptAttr::Skip(ident, expr) => self.set_kind(Sp::new(Kind::Skip(clone_opt_tokens(expr)), ident.span)),
            StructOptAttr::NoVersion(ident) => {
                self.no_version = Some(copy_sp_string(ident));
                Ok(())
            },
            StructOptAttr::About(ident, about) => {
                let env_value = match &env.description {
                    Some(v) => Some(v.clone()),
                    None => None,
                };
                let m = Method::from_lit_or_env(copy_sp_string(ident), clone_opt_sp_string(about), "CARGO_PKG_DESCRIPTION", env_value);
                match m {
                    Ok(m) => {
                        self.about = Some(m);
                        Ok(())
                    },
                    Err(e) => Err(e),
                }
            },
            StructOptAttr::Author(ident, author) => {
                let env_value = match &env.authors {
                    Some(v) => Some(v.clone()),
                    None => None,
                };
                let m = Method::from_lit_or_env(copy_sp_string(ident), clone_opt_sp_string(author), "CARGO_PKG_AUTHORS", env_value);
                match m {
                    Ok(m) => {
                        self.author = Some(m);
                        Ok(())
                    },
                    Err(e) => Err(e),
                }
            },
            StructOptAttr::Version(ident, version) => {
                self.version = Some(Method::new(copy_sp_string(ident), MethodArgs::Lit(copy_sp_string(version))));
                Ok(())
            },
            StructOptAttr::NameLitStr(name, lit) => {
                self.push_str_method(copy_sp_string(name), copy_sp_string(lit));
                Ok(())
            },
            StructOptAttr::NameExpr(name, expr) => {
                self.push_method(Method::new(copy_sp_string(name), MethodArgs::Tokens(clone_tokens(expr))));
                Ok(())
            },
            StructOptAttr::MethodCall(name, args) => {
                self.push_method(Method::new(copy_sp_string(name), MethodArgs::Tokens(clone_tokens(args))));
                Ok(())
            },
            StructOptAttr::RenameAll(_, casing_lit) => {
                match CasingStyle::from_lit(copy_sp_string(casing_lit)) {
                    Ok(cs2) => {
                        self.casing = cs2;
                        Ok(())
                    },
                    Err(e) => Err(e),
                }
            },
            StructOptAttr::Parse(ident, spec) => {
                match Parser::from_spec(ident.span, clone_parser_spec(spec)) {
                    Ok(p) => {
                        self.has_custom_parser = true;
                        self.parser = p;
                        Ok(())
                    },
                    Err(e) => Err(e),
                }
            },
        }
    }

    /// Applies the attributes in order and stops at the first refused one.
    fn push_attrs(&mut self, attrs: &Vec<StructOptAttr>, env: &PackageEnv, cs: Span) -> (res: Result<(), AttrError>)
        ensures
            match res {
                Ok(()) => apply_attrs(old(self)@, attrs@, *env, cs) == Ok::<_, AttrErrorView>(final(self)@),
                Err(e) => apply_attrs(old(self)@, attrs@, *env, cs) == Err::<AttrsView, _>(e@),
            },
    {
        let ghost start = self@;
        let mut i: usize = 0;
        assert(attrs@.take(0) =~= Seq::<StructOptAttr>::empty());
        while i < attrs.len()
            invariant
                i <= attrs@.len(),
                start == old(self)@,
                apply_attrs(start, attrs@.take(i as int), *env, cs) == Ok::<_, AttrErrorView>(self@),
            decreases attrs.len() - i,
        {
            assert(attrs@.take(i + 1).drop_last() =~= attrs@.take(i as int));
            assert(attrs@.take(i + 1).last() == attrs@[i as int]);
            let ghost before = self@;
            let r = self.push_attr(&attrs[i], env, cs);
            match r {
                Ok(()) => {},
                Err(e) => {
                    proof {
                        assert(apply_attr(before, attrs@[i as int], *env, cs) == Err::<AttrsView, _>(e@));
                        assert(apply_attrs(start, attrs@.take(i + 1), *env, cs) == Err::<AttrsView, _>(e@));
                        law_refusal_is_final(start, attrs@, *env, cs, i + 1);
                        assert(apply_attrs(start, attrs@, *env, cs) == Err::<AttrsView, _>(e@));
                        assert(start == old(self)@);
                    }
                    return Err(e);
                },
            }
            i = i + 1;
        }
        assert(attrs@.take(attrs@.len() as int) =~= attrs@);
        Ok(())
    }
}

/// The first refused attribute decides the outcome: the attributes after it
/// change nothing.
pub proof fn law_refusal_is_final(a: AttrsView, attrs: Seq<StructOptAttr>, env: PackageEnv, cs: Span, k: int)
    requires
        0 <= k <= attrs.len(),
        apply_attrs(a, attrs.take(k), env, cs) is Err,
    ensures
        apply_attrs(a, attrs, env, cs) == apply_attrs(a, attrs.take(k), env, cs),
    decreases attrs.len() - k,
{
    if k < attrs.len() {
        assert(attrs.take(k + 1).drop_last() =~= attrs.take(k));
        law_refusal_is_final(a, attrs, env, cs, k + 1);
    } else {
        assert(attrs.take(k) =~= attrs);
    }
}

} // verus!

verus! {

/// `"long_"` followed by `name`.
fn long_name_of(name: &str) -> (res: String)
    ensures
        res@ == "long_"@ + name@,
{
    let mut res = String::from_str("long_");
    res.append(name);
    res
}

impl Attrs {
    /// Appends the methods that the doc comment gives: `values` are the
    /// strings of the `#[doc = "..."]` attributes, `name` is `about` or `help`.
    fn push_doc_comment(&mut self, values: &Vec<String>, name: &str, cs: Span)
        ensures
            final(self)@ == push_doc(old(self)@, string_views(values@), name@, cs),
    {
        let ghost old_methods = self@.methods;
        let doc_comments = doc_comment_lines(values);
        if doc_comments.len() == 0 {
            assert(self@.methods =~= old_methods + doc_comment_methods(string_views(values@), name@, cs));
            return;
        }
        let merged_lines = merge_doc_lines(&doc_comments);
        let expected_doc_comment_split = doc_comments.len() > 2 && str_eq(doc_comments[1].as_str(), "\n\n");
        proof {
            reveal_strlit("\n\n");
            assert("\n\n"@ =~= seq!['\n', '\n']);
            if doc_comments@.len() > 2 {
                assert(string_views(doc_comments@)[1] == doc_comments@[1]@);
            }
        }
        if expected_doc_comment_split {
            let long_name = Sp::new(long_name_of(name), cs);
            self.push_method(Method::new(long_name, MethodArgs::Text(merged_lines)));
            let short_arg = short_doc_help(doc_comments[0].as_str());
            assert(string_views(doc_comments@)[0] == doc_comments@[0]@);
            self.push_method(Method::new(Sp::new(String::from_str(name), cs), MethodArgs::Text(short_arg)));
        } else {
            self.push_method(Method::new(Sp::new(String::from_str(name), cs), MethodArgs::Text(merged_lines)));
        }
        assert(self@.methods =~= old_methods + doc_comment_methods(string_views(values@), name@, cs));
    }

    /// The attributes of a struct or enum. `attrs` are its `structopt`
    /// attributes, `docs` the strings of its doc attributes, `env` the
    /// package metadata.
    pub fn from_struct(
        span: Span,
        attrs: &Vec<StructOptAttr>,
        docs: &Vec<String>,
        name: Name,
        argument_casing: Sp<CasingStyle>,
        env: &PackageEnv,
    ) -> (res: Result<Attrs, AttrError>)
        ensures
            exists|cs: Span| attrs_result_view(res)
                == attrs_of_struct(span, attrs@, string_views(docs@), name@, argument_casing, *env, cs),
    {
        let cs = call_site();
        let ghost name_view = name@;
        let mut res = Attrs::new(span, name, argument_casing);
        match res.push_attrs(attrs, env, cs) {
            Ok(()) => {},
            Err(e) => {
                assert(attrs_result_view(Err(e)) == attrs_of_struct(span, attrs@, string_views(docs@), name_view, argument_casing, *env, cs));
                return Err(e);
            },
        }
        res.push_doc_comment(docs, "about", cs);
        let ghost expected = attrs_of_struct(span, attrs@, string_views(docs@), name_view, argument_casing, *env, cs);
        if res.has_custom_parser {
            let r = Err(AttrError { kind: AttrErrorKind::ParseOnlyOnFields, span: res.parser.span });
            assert(attrs_result_view(r) == expected);
            return r;
        }
        let kind_span = res.kind.span;
        let r = match &res.kind.value {
            Kind::Subcommand(_) => Err(AttrError { kind: AttrErrorKind::SubcommandOnlyOnFields, span: kind_span }),
            Kind::FlattenStruct => Err(AttrError { kind: AttrErrorKind::FlattenOnlyOnFields, span: kind_span }),
            Kind::Skip(_) => Err(AttrError { kind: AttrErrorKind::SkipOnlyOnFields, span: kind_span }),
            Kind::Arg(_) => Ok(res),
        };
        assert(attrs_result_view(r) == expected);
        r
    }
}

} // verus!

verus! {

impl Attrs {
    /// The attributes of a named field. `ident` is the field's name as
    /// written, `field_ty` the shape of its type, `attrs` its `structopt`
    /// attributes, `docs` the strings of its doc attributes.
    pub fn from_field(
        span: Span,
        ident: Sp<String>,
        field_ty: Sp<Ty>,
        attrs: &Vec<StructOptAttr>,
        docs: &Vec<String>,
        struct_casing: Sp<CasingStyle>,
        env: &PackageEnv,
    ) -> (res: Result<Attrs, AttrError>)
        ensures
            exists|cs: Span| attrs_result_view(res)
                == attrs_of_field(span, ident@, field_ty, attrs@, string_views(docs@), struct_casing, *env, cs),
    {
        let cs = call_site();
        let ghost ident_view = ident@;
        let ghost expected = attrs_of_field(span, ident_view, field_ty, attrs@, string_views(docs@), struct_casing, *env, cs);
        let mut res = Attrs::new(span, Name::Derived(ident), struct_casing);
        res.push_doc_comment(docs, "help", cs);
        match res.push_attrs(attrs, env, cs) {
            Ok(()) => {},
            Err(e) => {
                assert(attrs_result_view(Err(e)) == expected);
                return Err(e);
            },
        }
        let r = res.check_field(field_ty);
        assert(attrs_result_view(r) == expected);
        r
    }

    /// The first method with this name, if any.
    fn find_index(&self, name: &str) -> (res: Option<usize>)
        ensures
            match res {
                Some(i) => first_named(self@.methods, name@) == Some(i as int) && i < self.methods@.len(),
                None => first_named(self@.methods, name@) is None,
            },
    {
        let mut i: usize = 0;
        let ghost ms = self@.methods;
        proof {
            law_first_named(ms, name@);
        }
        assert(ms.skip(0) =~= ms);
        while i < self.methods.len()
            invariant
                i <= ms.len(),
                ms == self@.methods,
                ms.len() == self.methods@.len(),
                first_named(ms, name@) == match first_named(ms.skip(i as int), name@) {
                    Some(j) => Some(j + i),
                    None => None::<int>,
                },
            decreases self.methods.len() - i,
        {
            assert(ms[i as int] == self.methods@[i as int]@);
            assert(ms.skip(i as int).drop_first() =~= ms.skip(i + 1));
            if str_eq(self.methods[i].name.value.as_str(), name) {
                return Some(i);
            }
            i = i + 1;
        }
        assert(ms.skip(i as int) =~= Seq::<MethodView>::empty());
        None
    }

    fn check_arg(&self, ty: &Sp<Ty>) -> (res: Option<AttrError>)
        ensures
            match res {
                Some(e) => arg_error(self@, *ty) == Some(e@),
                None => arg_error(self@, *ty) is None,
            },
    {
        match ty.value {
            Ty::Bool => {
                if self.is_positional() && !self.has_custom_parser {
                    return Some(AttrError { kind: AttrErrorKind::PositionalBool, span: ty.span });
                }
                if let Some(i) = self.find_index("default_value") {
                    return Some(AttrError { kind: AttrErrorKind::DefaultValueOnBool, span: self.methods[i].name.span });
                }
                if let Some(i) = self.find_index("required") {
                    return Some(AttrError { kind: AttrErrorKind::RequiredOnBool, span: self.methods[i].name.span });
                }
                None
            },
            Ty::Option => {
                if let Some(i) = self.find_index("default_value") {
                    return Some(AttrError { kind: AttrErrorKind::DefaultValueOnOption, span: self.methods[i].name.span });
                }
                if let Some(i) = self.find_index("required") {
                    return Some(AttrError { kind: AttrErrorKind::RequiredOnOption, span: self.methods[i].name.span });
                }
                None
            },
            Ty::OptionOption => {
                if self.is_positional() {
                    Some(AttrError { kind: AttrErrorKind::PositionalOptionOption, span: ty.span })
                } else {
                    None
                }
            },
            Ty::OptionVec => {
                if self.is_positional() {
                    Some(AttrError { kind: AttrErrorKind::PositionalOptionVec, span: ty.span })
                } else {
                    None
                }
            },
            _ => None,
        }
    }

    fn check_field(self, field_ty: Sp<Ty>) -> (res: Result<Attrs, AttrError>)
        ensures
            attrs_result_view(res) == check_field(self@, field_ty),
    {
        let mut a = self;
        let kind_span = a.kind.span;
        match &a.kind.value {
            Kind::FlattenStruct => {
                if a.has_custom_parser {
                    return Err(AttrError { kind: AttrErrorKind::ParseOnFlatten, span: a.parser.span });
                }
                if a.has_explicit_methods() || a.has_doc_methods() {
                    return Err(AttrError { kind: AttrErrorKind::MethodsOnFlatten, span: kind_span });
                }
                Ok(a)
            },
            Kind::Subcommand(_) => {
                if a.has_custom_parser {
                    return Err(AttrError { kind: AttrErrorKind::ParseOnSubcommand, span: a.parser.span });
                }
                if a.has_explicit_methods() {
                    return Err(AttrError { kind: AttrErrorKind::MethodsOnSubcommand, span: kind_span });
                }
                match field_ty.value {
                    Ty::OptionOption => {
                        return Err(AttrError { kind: AttrErrorKind::OptionOptionSubcommand, span: field_ty.span });
                    },
                    Ty::OptionVec => {
                        return Err(AttrError { kind: AttrErrorKind::OptionVecSubcommand, span: field_ty.span });
                    },
                    _ => {},
                }
                a.kind = Sp::new(Kind::Subcommand(field_ty), kind_span);
                Ok(a)
            },
            Kind::Skip(_) => {
                if a.has_explicit_methods() {
                    return Err(AttrError { kind: AttrErrorKind::MethodsOnSkip, span: kind_span });
                }
                Ok(a)
            },
            Kind::Arg(orig_ty) => {
                let orig_span = orig_ty.span;
                let mut ty = field_ty;
                if a.has_custom_parser {
                    match ty.value {
                        Ty::Option | Ty::Vec | Ty::OptionVec => {},
                        _ => ty = Sp::new(Ty::Other, ty.span),
                    }
                }
                if let Some(e) = a.check_arg(&ty) {
                    return Err(e);
                }
                a.kind = Sp::new(Kind::Arg(ty), orig_span);
                Ok(a)
            },
        }
    }

    /// Whether some method has this name.
    pub fn has_method(&self, name: &str) -> (res: bool)
        ensures
            res == has_named(self@.methods, name@),
    {
        let r = self.find_index(name);
        proof {
            law_first_named(self@.methods, name@);
        }
        r.is_some()
    }

    /// The first method with this name, if any.
    pub fn find_method(&self, name: &str) -> (res: Option<&Method>)
        ensures
            match first_named(self@.methods, name@) {
                Some(i) => res == Some(&self.methods@[i]),
                None => res is None,
            },
    {
        match self.find_index(name) {
            Some(i) => Some(&self.methods[i]),
            None => None,
        }
    }

    /// The methods to call on top of a struct or enum: author, version, the
    /// other methods, about. `pkg_version` is the package version from the
    /// environment, used when neither `version` nor `no_version` is given.
    pub fn top_level_methods(&self, pkg_version: Option<String>) -> (res: Result<Vec<Method>, AttrError>)
        ensures
            exists|cs: Span| top_level(self@, opt_string_view(pkg_version), cs) == methods_result_view(res),
    {
        let cs = call_site();
        let ghost expected = top_level(self@, opt_string_view(pkg_version), cs);
        let mut out: Vec<Method> = Vec::new();
        let version: Option<Method> = match (&self.no_version, &self.version) {
            (Some(no_version), Some(_)) => {
                let r = Err(AttrError { kind: AttrErrorKind::NoVersionWithVersion, span: no_version.span });
                assert(expected == methods_result_view(r));
                return r;
            },
            (None, Some(m)) => Some(clone_method(m)),
            (None, None) => match pkg_version {
                Some(v) => Some(Method::new(Sp::new(String::from_str("version"), cs), MethodArgs::Text(v))),
                None => None,
            },
            (Some(_), None) => None,
        };
        if let Some(a) = &self.author {
            out.push(clone_method(a));
        }
        if let Some(v) = version {
            out.push(v);
        }
        let ghost before = out@;
        let mut i: usize = 0;
        while i < self.methods.len()
            invariant
                i <= self.methods@.len(),
                out@ == before + self.methods@.take(i as int),
            decreases self.methods.len() - i,
        {
            out.push(clone_method(&self.methods[i]));
            assert(out@ =~= before + self.methods@.take(i + 1));
            i = i + 1;
        }
        assert(self.methods@.take(self.methods@.len() as int) =~= self.methods@);
        if let Some(a) = &self.about {
            out.push(clone_method(a));
        }
        assert(method_views(out@) =~= expected->Ok_0);
        let r = Ok(out);
        assert(expected == methods_result_view(r));
        r
    }

    /// The methods to call on top of a field.
    pub fn field_methods(&self) -> (res: Vec<Method>)
        ensures
            res@ == self.methods@,
    {
        let mut out: Vec<Method> = Vec::new();
        let mut i: usize = 0;
        while i < self.methods.len()
            invariant
                i <= self.methods@.len(),
                out@ == self.methods@.take(i as int),
            decreases self.methods.len() - i,
        {
            out.push(clone_method(&self.methods[i]));
            assert(out@ =~= self.methods@.take(i + 1));
            i = i + 1;
        }
        assert(self.methods@.take(self.methods@.len() as int) =~= self.methods@);
        out
    }

    /// The argument's name in its casing style.
    pub fn cased_name(&self) -> (res: Sp<String>)
        ensures
            res@ == translated(self@.name, self.casing.value),
    {
        self.name.translate_ref(self.casing.value)
    }

    /// How the argument's values are parsed.
    pub fn parser(&self) -> (res: &Sp<Parser>)
        ensures
            *res == self.parser,
    {
        &self.parser
    }

    /// What kind of entry this is.
    pub fn kind(&self) -> (res: Sp<Kind>)
        ensures
            res == self.kind,
    {
        clone_kind(&self.kind)
    }

    /// The casing style in force.
    pub fn casing(&self) -> (res: Sp<CasingStyle>)
        ensures
            res == self.casing,
    {
        Sp::new(self.casing.value, self.casing.span)
    }

    /// Whether the argument is positional: no `long` and no `short` method.
    pub fn is_positional(&self) -> (res: bool)
        ensures
            res == positional(self@.methods),
    {
        let mut i: usize = 0;
        let ghost ms = self@.methods;
        while i < self.methods.len()
            invariant
                i <= ms.len(),
                ms == self@.methods,
                ms.len() == self.methods@.len(),
                forall|j: int| 0 <= j < i ==> ms[j].name.0 != "long"@ && ms[j].name.0 != "short"@,
            decreases self.methods.len() - i,
        {
            assert(ms[i as int] == self.methods@[i as int]@);
            let n = self.methods[i].name.value.as_str();
            if str_eq(n, "long") || str_eq(n, "short") {
                return false;
            }
            i = i + 1;
        }
        true
    }

    /// Whether some method is neither `help` nor `long_help`.
    pub fn has_explicit_methods(&self) -> (res: bool)
        ensures
            res == explicit_methods(self@.methods),
    {
        let mut i: usize = 0;
        let ghost ms = self@.methods;
        while i < self.methods.len()
            invariant
                i <= ms.len(),
                ms == self@.methods,
                ms.len() == self.methods@.len(),
                forall|j: int| 0 <= j < i ==> !(ms[j].name.0 != "help"@ && ms[j].name.0 != "long_help"@),
            decreases self.methods.len() - i,
        {
            assert(ms[i as int] == self.methods@[i as int]@);
            let n = self.methods[i].name.value.as_str();
            if !str_eq(n, "help") && !str_eq(n, "long_help") {
                return true;
            }
            i = i + 1;
        }
        false
    }

    /// Whether some method is `help` or `long_help`.
    pub fn has_doc_methods(&self) -> (res: bool)
        ensures
            res == doc_methods(self@.methods),
    {
        let mut i: usize = 0;
        let ghost ms = self@.methods;
        while i < self.methods.len()
            invariant
                i <= ms.len(),
                ms == self@.methods,
                ms.len() == self.methods@.len(),
                forall|j: int| 0 <= j < i ==> !(ms[j].name.0 == "help"@ || ms[j].name.0 == "long_help"@),
            decreases self.methods.len() - i,
        {
            assert(ms[i as int] == self.methods@[i as int]@);
            let n = self.methods[i].name.value.as_str();
            if str_eq(n, "help") || str_eq(n, "long_help") {
                return true;
            }
            i = i + 1;
        }
        false
    }
}

/// A method is found by name exactly when one has that name, and the one
/// found is the first.
pub proof fn law_first_named(ms: Seq<MethodView>, name: Seq<char>)
    ensures
        first_named(ms, name) is Some <==> has_named(ms, name),
        first_named(ms, name) matches Some(i) ==> {
            &&& 0 <= i < ms.len()
            &&& ms[i].name.0 == name
            &&& forall|j: int| 0 <= j < i ==> ms[j].name.0 != name
        },
    decreases ms.len(),
{
    if ms.len() > 0 {
        law_first_named(ms.drop_first(), name);
        if ms[0].name.0 != name {
            if let Some(i) = first_named(ms.drop_first(), name) {
                assert forall|j: int| 0 <= j < i + 1 implies ms[j].name.0 != name by {
                    if j > 0 {
                        assert(ms[j] == ms.drop_first()[j - 1]);
                    }
                }
            }
        }
        if has_named(ms, name) && ms[0].name.0 != name {
            let k = choose|k: int| 0 <= k < ms.len() && ms[k].name.0 == name;
            assert(ms.drop_first()[k - 1].name.0 == name);
        }
        if has_named(ms.drop_first(), name) {
            let k = choose|k: int| 0 <= k < ms.len() - 1 && ms.drop_first()[k].name.0 == name;
            assert(ms[k + 1].name.0 == name);
        }
    }
}

} // verus!
