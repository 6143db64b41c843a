//! Embeds the source text of a declaration beside the declaration itself.
//!
//! Given the text of one declaration (a `struct`, `enum`, `fn`, `trait` or
//! `impl` block), the crate produces a hidden public constant that holds
//! that text, named after the declaration, followed by the declaration.

pub mod declaration;
pub mod output;
pub mod parser;
pub mod syntax;
pub mod text;

use crate::declaration::{capture, classified, classify, SyntaxError};
use crate::output::{
    compose, constant_name, OutputModel, OutputUnit, CONSTANT_END, CONSTANT_HEAD, CONSTANT_TYPE,
};
use crate::parser::{fault_message, item_form, item_tokens, render_item};
use crate::syntax::{FormModel, TargetModel};
use crate::text::{string_literal, uppercased};
use vstd::prelude::*;

verus! {

/// The output for `input`: where the parser reads a declaration from it,
/// the constant that holds `input`, followed by the declaration written
/// out from its tokens; `None` where it reads none.
pub open spec fn embedded(input: Seq<char>) -> Option<OutputModel> {
    match classified(input) {
        Some(declaration) => Some(OutputModel::of(declaration, item_tokens(input))),
        None => None,
    }
}

/// Whether `outcome` is what embedding `input` ends in: the output named
/// by [`embedded`], or a refusal where there is none.
pub open spec fn is_outcome_of(input: Seq<char>, outcome: Result<OutputUnit, SyntaxError>) -> bool {
    match outcome {
        Ok(unit) => embedded(input) == Some(unit@),
        Err(_) => embedded(input) is None,
    }
}

/// Captures the text of the declaration `input`, derives the constant's
/// name from it, and returns the constant followed by the declaration.
///
/// `args` is accepted and not read. The call fails only where `input` is
/// not a declaration of any kind.
pub fn src_embed(args: &str, input: &str) -> (outcome: Result<OutputUnit, SyntaxError>)
    ensures
        is_outcome_of(input@, outcome),
        outcome is Ok <==> item_form(input@) is Some,
        outcome matches Ok(unit) ==> unit@.constant.value == input@,
        outcome matches Ok(unit) ==> unit@.declaration == item_tokens(input@),
{
    let raw_text = capture(input);
    match classify(raw_text.as_str()) {
        Ok(declaration) => match render_item(input) {
            Ok(tokens) => Ok(compose(&declaration, tokens.as_str())),
            Err(fault) => Err(SyntaxError::new(fault_message(&fault))),
        },
        Err(error) => Err(error),
    }
}

/// The constant holds the input text, character for character, whatever
/// the declaration is.
pub proof fn lemma_value_is_input(input: Seq<char>)
    requires
        embedded(input) is Some,
    ensures
        embedded(input)->0.constant.value == input,
{
}

/// The constant's identifier is `__`, the declaration's name in upper
/// case, and `_SOURCE__`, in this order.
pub proof fn lemma_constant_name(input: Seq<char>)
    requires
        item_form(input) is Some,
    ensures
        embedded(input) is Some,
        embedded(input)->0.constant.name == "__"@ + uppercased(item_form(input)->0.name())
            + "_SOURCE__"@,
{
}

/// A structure, enumeration, function or trait is named by its declared
/// identifier.
pub proof fn lemma_name_of_identifier(form: FormModel, ident: Seq<char>)
    requires
        form == FormModel::Structure(ident) || form == FormModel::Enumeration(ident) || form
            == FormModel::Function(ident) || form == FormModel::Trait(ident),
    ensures
        form.name() == ident,
        constant_name(form.name()) == "__"@ + uppercased(ident) + "_SOURCE__"@,
{
}

/// An implementation block for a named type is named by the identifier of
/// the last segment of the type's path.
pub proof fn lemma_name_of_implementation(segments: Seq<Seq<char>>)
    requires
        segments.len() > 0,
    ensures
        FormModel::Implementation(TargetModel::Path(segments)).name() == segments[segments.len()
            - 1],
{
}

/// An implementation block for a type without a trailing named segment is
/// named `UNKNOWN`, and a declaration of an unrecognized kind `ITEM`.
pub proof fn lemma_fallback_names()
    ensures
        FormModel::Implementation(TargetModel::Other).name() == "UNKNOWN"@,
        FormModel::Implementation(TargetModel::Path(Seq::empty())).name() == "UNKNOWN"@,
        FormModel::Unrecognized.name() == "ITEM"@,
{
}

/// The outcome depends on the input text alone: two runs on the same input
/// end alike, and where they succeed their outputs are equal.
pub proof fn lemma_same_input_same_output(
    input: Seq<char>,
    first: Result<OutputUnit, SyntaxError>,
    second: Result<OutputUnit, SyntaxError>,
)
    requires
        is_outcome_of(input, first),
        is_outcome_of(input, second),
    ensures
        first is Ok <==> second is Ok,
        first matches Ok(one) ==> second matches Ok(other) && one@ == other@,
{
}

/// Output is produced for every text that the parser reads as a
/// declaration, of whatever kind, and for no other.
pub proof fn lemma_total_on_declarations(input: Seq<char>)
    ensures
        embedded(input) is Some <==> item_form(input) is Some,
{
}

/// In the output text the declaration stands last, after the constant's
/// own declaration, and is the text written out from the parsed tokens
/// with nothing added to it.
pub proof fn lemma_declaration_follows_constant(input: Seq<char>)
    requires
        embedded(input) is Some,
    ensures
        ({
            let unit = embedded(input)->0;
            let head = "#[doc(hidden)]\npub const "@ + unit.constant.name + ": &str = "@
                + string_literal(input) + ";\n"@;
            &&& unit.source() == head + item_tokens(input)
            &&& unit.source().skip(head.len() as int) == item_tokens(input)
        }),
{
    let unit = embedded(input)->0;
    let head = CONSTANT_HEAD@ + unit.constant.name + CONSTANT_TYPE@ + string_literal(input)
        + CONSTANT_END@;
    assert(unit.source() =~= head + item_tokens(input));
    assert((head + item_tokens(input)).skip(head.len() as int) =~= item_tokens(input));
}

} // verus!
