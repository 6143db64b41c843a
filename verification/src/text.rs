//! Text operations whose results are taken from outside: upper case and
//! the written form of a string literal.

use vstd::prelude::*;

verus! {

/// The text that `str::to_uppercase` returns for `text`.
pub uninterp spec fn uppercased(text: Seq<char>) -> Seq<char>;

/// The written form that `syn::LitStr::new` gives a string literal whose
/// value is `text`: the value between double quotes, with escapes.
pub uninterp spec fn string_literal(text: Seq<char>) -> Seq<char>;

/// Calls `str::to_uppercase`.
///
/// Trusted: the result is the text named by [`uppercased`].
#[verifier::external_body]
pub(crate) fn to_upper(text: &str) -> (upper: String)
    ensures
        upper@ == uppercased(text@),
{
    text.to_uppercase()
}

/// Calls `syn::LitStr::new` and writes the literal's token out with
/// `to_string`.
///
/// Trusted: the result is the text named by [`string_literal`].
#[verifier::external_body]
pub(crate) fn write_literal(text: &str) -> (literal: String)
    ensures
        literal@ == string_literal(text@),
{
    syn::LitStr::new(text, proc_macro2::Span::call_site()).token().to_string()
}

} // verus!
