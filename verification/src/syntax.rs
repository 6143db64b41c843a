//! The structural model of a declaration: its kind and the identifier it is
//! named after.

use vstd::prelude::*;
use vstd::string::*;

verus! {

/// The name given to an implementation block whose type has no trailing
/// named segment.
pub const UNKNOWN_NAME: &'static str = "UNKNOWN";

/// The name given to a declaration of an unrecognized kind.
pub const ITEM_NAME: &'static str = "ITEM";

/// The classification of a declaration.
#[derive(Clone, Copy, Debug, PartialEq, Eq, Structural)]
pub enum Kind {
    Structure,
    Enumeration,
    Function,
    Trait,
    Implementation,
    Unrecognized,
}

/// The type that an implementation block implements.
#[derive(Clone, Debug, PartialEq, Eq)]
pub enum Target {
    /// A simple or qualified named type: the identifiers of its path
    /// segments, in order.
    Path(Vec<String>),
    /// Any other type, such as a tuple or a reference.
    Other,
}

/// A declaration as far as this crate reads it.
#[derive(Clone, Debug, PartialEq, Eq)]
pub enum Form {
    /// A structure, with its declared identifier.
    Structure(String),
    /// An enumeration, with its declared identifier.
    Enumeration(String),
    /// A function, with its declared identifier.
    Function(String),
    /// A trait, with its declared identifier.
    Trait(String),
    /// An implementation block, with the type it implements.
    Implementation(Target),
    /// Any other declaration.
    Unrecognized,
}

/// The mathematical value of a [`Target`].
pub enum TargetModel {
    Path(Seq<Seq<char>>),
    Other,
}

/// The mathematical value of a [`Form`].
pub enum FormModel {
    Structure(Seq<char>),
    Enumeration(Seq<char>),
    Function(Seq<char>),
    Trait(Seq<char>),
    Implementation(TargetModel),
    Unrecognized,
}

/// The texts of a sequence of strings.
pub open spec fn texts(strings: Seq<String>) -> Seq<Seq<char>> {
    strings.map_values(|s: String| s@)
}

impl View for Target {
    type V = TargetModel;

    open spec fn view(&self) -> TargetModel {
        match self {
            Target::Path(segments) => TargetModel::Path(texts(segments@)),
            Target::Other => TargetModel::Other,
        }
    }
}

impl View for Form {
    type V = FormModel;

    open spec fn view(&self) -> FormModel {
        match self {
            Form::Structure(ident) => FormModel::Structure(ident@),
            Form::Enumeration(ident) => FormModel::Enumeration(ident@),
            Form::Function(ident) => FormModel::Function(ident@),
            Form::Trait(ident) => FormModel::Trait(ident@),
            Form::Implementation(target) => FormModel::Implementation(target@),
            Form::Unrecognized => FormModel::Unrecognized,
        }
    }
}

impl TargetModel {
    /// The identifier of the last path segment, or `UNKNOWN` where there is
    /// none.
    pub open spec fn name(self) -> Seq<char> {
        match self {
            TargetModel::Path(segments) => if segments.len() > 0 {
                segments.last()
            } else {
                UNKNOWN_NAME@
            },
            TargetModel::Other => UNKNOWN_NAME@,
        }
    }

    /// Every path segment has an identifier.
    pub open spec fn well_formed(self) -> bool {
        match self {
            TargetModel::Path(segments) => forall|i: int|
                0 <= i < segments.len() ==> (#[trigger] segments[i]).len() > 0,
            TargetModel::Other => true,
        }
    }
}

impl FormModel {
    /// The classification of the declaration.
    pub open spec fn kind(self) -> Kind {
        match self {
            FormModel::Structure(_) => Kind::Structure,
            FormModel::Enumeration(_) => Kind::Enumeration,
            FormModel::Function(_) => Kind::Function,
            FormModel::Trait(_) => Kind::Trait,
            FormModel::Implementation(_) => Kind::Implementation,
            FormModel::Unrecognized => Kind::Unrecognized,
        }
    }

    /// The name that the declaration is known by: its declared identifier,
    /// for an implementation block the name of its target, and `ITEM` for
    /// an unrecognized declaration.
    pub open spec fn name(self) -> Seq<char> {
        match self {
            FormModel::Structure(ident) => ident,
            FormModel::Enumeration(ident) => ident,
            FormModel::Function(ident) => ident,
            FormModel::Trait(ident) => ident,
            FormModel::Implementation(target) => target.name(),
            FormModel::Unrecognized => ITEM_NAME@,
        }
    }

    /// Every identifier that the declaration holds is non-empty.
    pub open spec fn well_formed(self) -> bool {
        match self {
            FormModel::Structure(ident) => ident.len() > 0,
            FormModel::Enumeration(ident) => ident.len() > 0,
            FormModel::Function(ident) => ident.len() > 0,
            FormModel::Trait(ident) => ident.len() > 0,
            FormModel::Implementation(target) => target.well_formed(),
            FormModel::Unrecognized => true,
        }
    }
}

impl Target {
    /// The name of the implemented type.
    pub fn name(&self) -> (name: String)
        ensures
            name@ == self@.name(),
    {
        match self {
            Target::Path(segments) => {
                if segments.len() > 0 {
                    segments[segments.len() - 1].clone()
                } else {
                    UNKNOWN_NAME.to_owned()
                }
            },
            Target::Other => UNKNOWN_NAME.to_owned(),
        }
    }
}

impl Form {
    /// The classification of the declaration.
    pub fn kind(&self) -> (kind: Kind)
        ensures
            kind == self@.kind(),
    {
        match self {
            Form::Structure(_) => Kind::Structure,
            Form::Enumeration(_) => Kind::Enumeration,
            Form::Function(_) => Kind::Function,
            Form::Trait(_) => Kind::Trait,
            Form::Implementation(_) => Kind::Implementation,
            Form::Unrecognized => Kind::Unrecognized,
        }
    }

    /// The name that the declaration is known by.
    pub fn name(&self) -> (name: String)
        ensures
            name@ == self@.name(),
    {
        match self {
            Form::Structure(ident) => ident.clone(),
            Form::Enumeration(ident) => ident.clone(),
            Form::Function(ident) => ident.clone(),
            Form::Trait(ident) => ident.clone(),
            Form::Implementation(target) => target.name(),
            Form::Unrecognized => ITEM_NAME.to_owned(),
        }
    }
}

/// A well-formed declaration has a non-empty name.
pub proof fn lemma_name_nonempty(form: FormModel)
    requires
        form.well_formed(),
    ensures
        form.name().len() > 0,
{
    reveal_strlit("UNKNOWN");
    reveal_strlit("ITEM");
}

} // verus!
