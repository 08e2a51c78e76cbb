//! Why a set of attributes was refused, and where.

use vstd::prelude::*;
use proc_macro2::Span;

verus! {

/// The rule that a set of attributes breaks.
#[derive(Debug, PartialEq, Eq)]
pub enum AttrErrorKind {
    /// `about` or `author` without a value, and the environment variable
    /// that would supply it is not set: the attribute's name and the variable.
    CannotDeriveFromCargo { attr: String, env_var: String },
    /// `parse(...)` names a parser kind that does not exist.
    UnsupportedParser(String),
    /// `parse(try_from_os_str)` without a function.
    TryFromOsStrNeedsFunction,
    /// The function given in `parse(kind = ...)` is not a path.
    ParseFunctionNotPath,
    /// `rename_all` names a casing that does not exist: the name as normalized.
    UnsupportedCasing(String),
    /// More than one of `subcommand`, `flatten` and `skip`.
    KindConflict,
    /// `parse` on a struct or enum.
    ParseOnlyOnFields,
    /// `subcommand` on a struct or enum.
    SubcommandOnlyOnFields,
    /// `flatten` on a struct or enum.
    FlattenOnlyOnFields,
    /// `skip` on a struct or enum.
    SkipOnlyOnFields,
    /// `parse` on a flattened field.
    ParseOnFlatten,
    /// Methods or doc comments on a flattened field.
    MethodsOnFlatten,
    /// `parse` on a subcommand field.
    ParseOnSubcommand,
    /// Methods on a subcommand field.
    MethodsOnSubcommand,
    /// A subcommand field of type `Option<Option<T>>`.
    OptionOptionSubcommand,
    /// A subcommand field of type `Option<Vec<T>>`.
    OptionVecSubcommand,
    /// Methods on a skipped field.
    MethodsOnSkip,
    /// A positional `bool` field with the default parser.
    PositionalBool,
    /// `default_value` on a `bool` field.
    DefaultValueOnBool,
    /// `required` on a `bool` field.
    RequiredOnBool,
    /// `default_value` on an `Option` field.
    DefaultValueOnOption,
    /// `required` on an `Option` field.
    RequiredOnOption,
    /// A positional field of type `Option<Option<T>>`.
    PositionalOptionOption,
    /// A positional field of type `Option<Vec<T>>`.
    PositionalOptionVec,
    /// Both `no_version` and `version = "..."`.
    NoVersionWithVersion,
}

/// A refused attribute set: the rule it breaks and the position to report.
#[derive(Debug)]
pub struct AttrError {
    pub kind: AttrErrorKind,
    pub span: Span,
}

/// What an error says, with its strings seen as characters.
pub enum AttrErrorKindView {
    CannotDeriveFromCargo { attr: Seq<char>, env_var: Seq<char> },
    UnsupportedParser(Seq<char>),
    TryFromOsStrNeedsFunction,
    ParseFunctionNotPath,
    UnsupportedCasing(Seq<char>),
    KindConflict,
    ParseOnlyOnFields,
    SubcommandOnlyOnFields,
    FlattenOnlyOnFields,
    SkipOnlyOnFields,
    ParseOnFlatten,
    MethodsOnFlatten,
    ParseOnSubcommand,
    MethodsOnSubcommand,
    OptionOptionSubcommand,
    OptionVecSubcommand,
    MethodsOnSkip,
    PositionalBool,
    DefaultValueOnBool,
    RequiredOnBool,
    DefaultValueOnOption,
    RequiredOnOption,
    PositionalOptionOption,
    PositionalOptionVec,
    NoVersionWithVersion,
}

impl View for AttrErrorKind {
    type V = AttrErrorKindView;

    open spec fn view(&self) -> AttrErrorKindView {
        match self {
            AttrErrorKind::CannotDeriveFromCargo { attr, env_var } =>
                AttrErrorKindView::CannotDeriveFromCargo { attr: attr@, env_var: env_var@ },
            AttrErrorKind::UnsupportedParser(s) => AttrErrorKindView::UnsupportedParser(s@),
            AttrErrorKind::TryFromOsStrNeedsFunction => AttrErrorKindView::TryFromOsStrNeedsFunction,
            AttrErrorKind::ParseFunctionNotPath => AttrErrorKindView::ParseFunctionNotPath,
            AttrErrorKind::UnsupportedCasing(s) => AttrErrorKindView::UnsupportedCasing(s@),
            AttrErrorKind::KindConflict => AttrErrorKindView::KindConflict,
            AttrErrorKind::ParseOnlyOnFields => AttrErrorKindView::ParseOnlyOnFields,
            AttrErrorKind::SubcommandOnlyOnFields => AttrErrorKindView::SubcommandOnlyOnFields,
            AttrErrorKind::FlattenOnlyOnFields => AttrErrorKindView::FlattenOnlyOnFields,
            AttrErrorKind::SkipOnlyOnFields => AttrErrorKindView::SkipOnlyOnFields,
            AttrErrorKind::ParseOnFlatten => AttrErrorKindView::ParseOnFlatten,
            AttrErrorKind::MethodsOnFlatten => AttrErrorKindView::MethodsOnFlatten,
            AttrErrorKind::ParseOnSubcommand => AttrErrorKindView::ParseOnSubcommand,
            AttrErrorKind::MethodsOnSubcommand => AttrErrorKindView::MethodsOnSubcommand,
            AttrErrorKind::OptionOptionSubcommand => AttrErrorKindView::OptionOptionSubcommand,
            AttrErrorKind::OptionVecSubcommand => AttrErrorKindView::OptionVecSubcommand,
            AttrErrorKind::MethodsOnSkip => AttrErrorKindView::MethodsOnSkip,
            AttrErrorKind::PositionalBool => AttrErrorKindView::PositionalBool,
            AttrErrorKind::DefaultValueOnBool => AttrErrorKindView::DefaultValueOnBool,
            AttrErrorKind::RequiredOnBool => AttrErrorKindView::RequiredOnBool,
            AttrErrorKind::DefaultValueOnOption => AttrErrorKindView::DefaultValueOnOption,
            AttrErrorKind::RequiredOnOption => AttrErrorKindView::RequiredOnOption,
            AttrErrorKind::PositionalOptionOption => AttrErrorKindView::PositionalOptionOption,
            AttrErrorKind::PositionalOptionVec => AttrErrorKindView::PositionalOptionVec,
            AttrErrorKind::NoVersionWithVersion => AttrErrorKindView::NoVersionWithVersion,
        }
    }
}

/// An error seen as what it says and where.
pub struct AttrErrorView {
    pub kind: AttrErrorKindView,
    pub span: Span,
}

impl View for AttrError {
    type V = AttrErrorView;

    open spec fn view(&self) -> AttrErrorView {
        AttrErrorView { kind: self.kind@, span: self.span }
    }
}

} // verus!
