//! A declaration as the unit of work: its verbatim text, its kind and the
//! name derived from it.

use crate::parser::{fault_message, item_form, parse_form};
use crate::syntax::{Form, FormModel, Kind, ITEM_NAME};
use vstd::prelude::*;

verus! {

/// The mathematical value of a [`Declaration`].
pub struct DeclarationModel {
    /// The source text, as it was supplied.
    pub raw_text: Seq<char>,
    /// The classification.
    pub kind: Kind,
    /// The name derived from the declaration, before it is put in upper
    /// case.
    pub derived_name: Seq<char>,
}

impl DeclarationModel {
    /// The declaration with text `raw_text` whose structure is `form`.
    pub open spec fn of(raw_text: Seq<char>, form: FormModel) -> DeclarationModel {
        DeclarationModel { raw_text, kind: form.kind(), derived_name: form.name() }
    }

    /// The derived name is not empty, and an unrecognized declaration is
    /// named `ITEM`.
    pub open spec fn well_formed(self) -> bool {
        &&& self.derived_name.len() > 0
        &&& self.kind == Kind::Unrecognized ==> self.derived_name == ITEM_NAME@
    }
}

/// One declaration, read once and never changed afterwards.
#[derive(Clone, Debug, PartialEq, Eq)]
pub struct Declaration {
    raw_text: String,
    kind: Kind,
    derived_name: String,
}

impl View for Declaration {
    type V = DeclarationModel;

    closed spec fn view(&self) -> DeclarationModel {
        DeclarationModel {
            raw_text: self.raw_text@,
            kind: self.kind,
            derived_name: self.derived_name@,
        }
    }
}

/// A text that is not a declaration of any kind.
#[derive(Clone, Debug, PartialEq, Eq)]
pub struct SyntaxError {
    message: String,
}

impl View for SyntaxError {
    type V = Seq<char>;

    closed spec fn view(&self) -> Seq<char> {
        self.message@
    }
}

impl SyntaxError {
    /// The error that carries `message`.
    pub fn new(message: String) -> (error: SyntaxError)
        ensures
            error@ == message@,
    {
        SyntaxError { message }
    }

    /// What the parser said of the text.
    pub fn message(&self) -> (message: &str)
        ensures
            message@ == self@,
    {
        self.message.as_str()
    }
}

impl Declaration {
    /// The declaration with text `raw_text` whose structure is `form`.
    pub fn new(raw_text: &str, form: &Form) -> (declaration: Declaration)
        ensures
            declaration@ == DeclarationModel::of(raw_text@, form@),
            form@.well_formed() ==> declaration@.well_formed(),
    {
        proof {
            if form@.well_formed() {
                crate::syntax::lemma_name_nonempty(form@);
            }
        }
        Declaration { raw_text: raw_text.to_owned(), kind: form.kind(), derived_name: form.name() }
    }

    /// The source text, as it was supplied.
    pub fn raw_text(&self) -> (text: &str)
        ensures
            text@ == self@.raw_text,
    {
        self.raw_text.as_str()
    }

    /// The classification.
    pub fn kind(&self) -> (kind: Kind)
        ensures
            kind == self@.kind,
    {
        self.kind
    }

    /// The name derived from the declaration.
    pub fn derived_name(&self) -> (name: &str)
        ensures
            name@ == self@.derived_name,
    {
        self.derived_name.as_str()
    }
}

/// The outcome of classifying `text`: the declaration that the parser
/// reads from it, or `None` where it reads none.
pub open spec fn classified(text: Seq<char>) -> Option<DeclarationModel> {
    match item_form(text) {
        Some(form) => Some(DeclarationModel::of(text, form)),
        None => None,
    }
}

/// Records the text of a declaration exactly as it was supplied.
pub fn capture(input: &str) -> (raw_text: String)
    ensures
        raw_text@ == input@,
{
    input.to_owned()
}

/// Reads `raw_text` as one declaration and derives its kind and name.
///
/// Every text that the parser reads as a declaration is classified, one of
/// a kind outside the five named kinds as [`Kind::Unrecognized`]; only a
/// text that is no declaration is refused.
pub fn classify(raw_text: &str) -> (outcome: Result<Declaration, SyntaxError>)
    ensures
        match outcome {
            Ok(declaration) => classified(raw_text@) == Some(declaration@)
                && declaration@.well_formed(),
            Err(_) => classified(raw_text@) is None,
        },
{
    match parse_form(raw_text) {
        Ok(form) => Ok(Declaration::new(raw_text, &form)),
        Err(fault) => Err(SyntaxError::new(fault_message(&fault))),
    }
}

} // verus!
