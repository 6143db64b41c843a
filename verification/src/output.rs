//! The output unit: the generated constant, followed by the declaration.

use crate::declaration::{Declaration, DeclarationModel};
use crate::text::{string_literal, to_upper, uppercased, write_literal};
use vstd::prelude::*;
use vstd::string::*;

verus! {

/// What a constant's identifier begins with.
pub const NAME_PREFIX: &'static str = "__";

/// What a constant's identifier ends with.
pub const NAME_SUFFIX: &'static str = "_SOURCE__";

/// The attribute and the words that open the constant's declaration.
pub const CONSTANT_HEAD: &'static str = "#[doc(hidden)]\npub const ";

/// The constant's type and the sign before its value.
pub const CONSTANT_TYPE: &'static str = ": &str = ";

/// What closes the constant's declaration.
pub const CONSTANT_END: &'static str = ";\n";

/// The identifier of the constant for a name that is already in upper
/// case.
pub open spec fn identifier_around(upper: Seq<char>) -> Seq<char> {
    NAME_PREFIX@ + upper + NAME_SUFFIX@
}

/// The identifier of the constant for a declaration's derived name.
pub open spec fn constant_name(derived_name: Seq<char>) -> Seq<char> {
    identifier_around(uppercased(derived_name))
}

/// The text of the output for a given name, written literal and
/// declaration.
pub open spec fn laid_out(name: Seq<char>, literal: Seq<char>, declaration: Seq<char>) -> Seq<
    char,
> {
    CONSTANT_HEAD@ + name + CONSTANT_TYPE@ + literal + CONSTANT_END@ + declaration
}

/// The mathematical value of a [`GeneratedConstant`].
pub struct ConstantModel {
    /// The constant's identifier.
    pub name: Seq<char>,
    /// The text that the constant holds.
    pub value: Seq<char>,
}

/// The mathematical value of an [`OutputUnit`].
pub struct OutputModel {
    /// The generated constant.
    pub constant: ConstantModel,
    /// The declaration that follows it.
    pub declaration: Seq<char>,
}

impl ConstantModel {
    /// The constant generated for `declaration`.
    pub open spec fn of(declaration: DeclarationModel) -> ConstantModel {
        ConstantModel {
            name: constant_name(declaration.derived_name),
            value: declaration.raw_text,
        }
    }
}

impl OutputModel {
    /// The output for `declaration`, whose structural form reads
    /// `structural_form`.
    pub open spec fn of(declaration: DeclarationModel, structural_form: Seq<char>) -> OutputModel {
        OutputModel { constant: ConstantModel::of(declaration), declaration: structural_form }
    }

    /// The output as one text.
    pub open spec fn source(self) -> Seq<char> {
        laid_out(self.constant.name, string_literal(self.constant.value), self.declaration)
    }
}

/// A public constant, hidden from generated documentation, that holds a
/// text.
#[derive(Clone, Debug, PartialEq, Eq)]
pub struct GeneratedConstant {
    name: String,
    value: String,
}

/// The generated constant and, after it, the declaration.
#[derive(Clone, Debug, PartialEq, Eq)]
pub struct OutputUnit {
    constant: GeneratedConstant,
    declaration: String,
}

impl View for GeneratedConstant {
    type V = ConstantModel;

    closed spec fn view(&self) -> ConstantModel {
        ConstantModel { name: self.name@, value: self.value@ }
    }
}

impl View for OutputUnit {
    type V = OutputModel;

    closed spec fn view(&self) -> OutputModel {
        OutputModel { constant: self.constant@, declaration: self.declaration@ }
    }
}

/// Puts a name that is already in upper case between `__` and
/// `_SOURCE__`.
pub fn identifier_for(upper: &str) -> (identifier: String)
    ensures
        identifier@ == identifier_around(upper@),
{
    let mut identifier = NAME_PREFIX.to_owned();
    identifier.append(upper);
    identifier.append(NAME_SUFFIX);
    identifier
}

/// Writes the constant's declaration and, on the next line, the
/// declaration itself. `literal` is the constant's value as a written
/// string literal.
pub fn lay_out(name: &str, literal: &str, declaration: &str) -> (source: String)
    ensures
        source@ == laid_out(name@, literal@, declaration@),
{
    let mut source = CONSTANT_HEAD.to_owned();
    source.append(name);
    source.append(CONSTANT_TYPE);
    source.append(literal);
    source.append(CONSTANT_END);
    source.append(declaration);
    source
}

impl GeneratedConstant {
    /// The constant for `declaration`: named after its derived name in
    /// upper case, holding its text.
    pub fn of(declaration: &Declaration) -> (constant: GeneratedConstant)
        ensures
            constant@ == ConstantModel::of(declaration@),
    {
        let upper = to_upper(declaration.derived_name());
        GeneratedConstant {
            name: identifier_for(upper.as_str()),
            value: declaration.raw_text().to_owned(),
        }
    }

    /// The constant's identifier.
    pub fn name(&self) -> (name: &str)
        ensures
            name@ == self@.name,
    {
        self.name.as_str()
    }

    /// The text that the constant holds.
    pub fn value(&self) -> (value: &str)
        ensures
            value@ == self@.value,
    {
        self.value.as_str()
    }
}

impl OutputUnit {
    /// The generated constant.
    pub fn constant(&self) -> (constant: &GeneratedConstant)
        ensures
            constant@ == self@.constant,
    {
        &self.constant
    }

    /// The declaration that follows the constant.
    pub fn declaration(&self) -> (declaration: &str)
        ensures
            declaration@ == self@.declaration,
    {
        self.declaration.as_str()
    }

    /// The output as one text: the constant's declaration, then the
    /// declaration.
    pub fn to_source(&self) -> (source: String)
        ensures
            source@ == self@.source(),
    {
        let literal = write_literal(self.constant.value());
        lay_out(self.constant.name(), literal.as_str(), self.declaration())
    }
}

/// Builds the output for `declaration`: its constant, followed by
/// `structural_form`, which is passed through as it is.
pub fn compose(declaration: &Declaration, structural_form: &str) -> (unit: OutputUnit)
    ensures
        unit@ == OutputModel::of(declaration@, structural_form@),
{
    OutputUnit {
        constant: GeneratedConstant::of(declaration),
        declaration: structural_form.to_owned(),
    }
}

} // verus!
