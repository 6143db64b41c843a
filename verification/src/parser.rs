//! What the `syn` parser says of a text: whether it is a declaration, what
//! form the declaration has, and how it reads once written out again from
//! its tokens.
//!
//! Nothing in this module is proved. Each function goes from text to plain
//! values, so that no syntax tree enters the verified code.
//!
//! `proc-macro2` is built without its `proc-macro` feature: lexing and
//! writing out are then its own, in every process, and never the
//! compiler's, so that a text has one reading and one written form.

use crate::syntax::{Form, FormModel, Target};
use quote::ToTokens;
use vstd::prelude::*;

verus! {

/// The error with which `syn` refuses a text.
#[verifier::external_type_specification]
#[verifier::external_body]
pub struct ExSyntaxFault(syn::Error);

/// The form of the declaration that `syn::parse_str::<syn::Item>` reads
/// from `text`, or `None` where it reads none.
pub uninterp spec fn item_form(text: Seq<char>) -> Option<FormModel>;

/// The text that `quote::ToTokens::to_token_stream`, written out with
/// `to_string`, gives for the declaration read from `text`.
pub uninterp spec fn item_tokens(text: Seq<char>) -> Seq<char>;

/// Calls `syn::parse_str::<syn::Item>` and hands back the variant of the
/// item with the identifiers that it is named by, each written out with
/// `to_string`.
///
/// Trusted: the result is `Ok` exactly where `text` is one whole item,
/// its form is the one named by [`item_form`], and no identifier that the
/// lexer produced is empty.
#[verifier::external_body]
pub(crate) fn parse_form(text: &str) -> (parsed: Result<Form, syn::Error>)
    ensures
        parsed matches Ok(form) ==> item_form(text@) == Some(form@) && form@.well_formed(),
        parsed is Err ==> item_form(text@) is None,
{
    Ok(match syn::parse_str::<syn::Item>(text)? {
        syn::Item::Struct(item) => Form::Structure(item.ident.to_string()),
        syn::Item::Enum(item) => Form::Enumeration(item.ident.to_string()),
        syn::Item::Fn(item) => Form::Function(item.sig.ident.to_string()),
        syn::Item::Trait(item) => Form::Trait(item.ident.to_string()),
        syn::Item::Impl(item) => Form::Implementation(match *item.self_ty {
            syn::Type::Path(ty) => Target::Path(
                ty.path.segments.iter().map(|segment| segment.ident.to_string()).collect(),
            ),
            _ => Target::Other,
        }),
        _ => Form::Unrecognized,
    })
}

/// Calls `syn::parse_str::<syn::Item>`, then `to_token_stream` on the
/// item, and writes the tokens out with `to_string`.
///
/// Trusted: the result is `Ok` exactly where [`item_form`] names a form,
/// and the text is the one named by [`item_tokens`].
#[verifier::external_body]
pub(crate) fn render_item(text: &str) -> (rendered: Result<String, syn::Error>)
    ensures
        rendered is Ok <==> item_form(text@) is Some,
        rendered matches Ok(tokens) ==> tokens@ == item_tokens(text@),
{
    let item = syn::parse_str::<syn::Item>(text)?;
    Ok(item.to_token_stream().to_string())
}

/// Calls `to_string` on a `syn::Error`, which gives its first message.
/// Nothing is claimed of the text.
#[verifier::external_body]
pub(crate) fn fault_message(fault: &syn::Error) -> String {
    fault.to_string()
}

} // verus!
