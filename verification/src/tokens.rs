//! Source positions and token streams, carried through the attribute logic.
//! Neither is inspected here: a span says where an error points, a token
//! stream is an expression written by the user that ends up in the output.

use vstd::prelude::*;
use proc_macro2::{Span, TokenStream};

verus! {

/// `proc_macro2::Span`, opaque here.
#[verifier::external_type_specification]
#[verifier::external_body]
pub struct ExSpan(Span);

/// `proc_macro2::TokenStream`, opaque here.
#[verifier::external_type_specification]
#[verifier::external_body]
pub struct ExTokenStream(TokenStream);

/// A value together with the source position it came from.
#[derive(Debug)]
pub struct Sp<T> {
    pub value: T,
    pub span: Span,
}

impl<T> Sp<T> {
    /// `value` at `span`.
    pub fn new(value: T, span: Span) -> (res: Sp<T>)
        ensures
            res.value == value,
            res.span == span,
    {
        Sp { value, span }
    }
}

/// `proc_macro2::Span::call_site`: the position of the macro invocation.
/// Nothing is stated of the result: it depends on where the macro runs.
#[verifier::external_body]
pub(crate) fn call_site() -> Span {
    Span::call_site()
}

/// `<proc_macro2::TokenStream as Clone>::clone`: the claim is that the copy
/// is the same token stream as the original.
#[verifier::external_body]
pub(crate) fn clone_tokens(t: &TokenStream) -> (res: TokenStream)
    ensures
        res == *t,
{
    t.clone()
}

/// A string with its position, seen as its characters and that position.
impl View for Sp<String> {
    type V = (Seq<char>, Span);

    open spec fn view(&self) -> (Seq<char>, Span) {
        (self.value@, self.span)
    }
}

/// A copy of a spanned string.
pub fn copy_sp_string(s: &Sp<String>) -> (res: Sp<String>)
    ensures
        res == *s,
{
    Sp { value: s.value.clone(), span: s.span }
}

} // verus!
