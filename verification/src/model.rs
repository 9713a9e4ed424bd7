//! The declaration model the shape validator works on, the validated case
//! model it produces, and the located errors it reports.

use vstd::prelude::*;

verus! {

/// One case of a declaration, as the validator sees it: its name, whether
/// it carries structural fields, whether it declares an explicit numeric
/// tag, and the text template attached to it, if any.
#[derive(Debug)]
pub struct CaseDecl {
    pub name: String,
    pub has_fields: bool,
    pub has_explicit_tag: bool,
    pub template: Option<String>,
}

/// A type declaration, reduced to exactly what the validator reads: the
/// type's name, whether the declaration is a closed sum of named cases,
/// whether it carries the representation-width annotation that fixes its
/// tags to the platform's indexing width, and its cases in declaration
/// order.
#[derive(Debug)]
pub struct Declaration {
    pub name: String,
    pub is_enumeration: bool,
    pub has_index_repr: bool,
    pub cases: Vec<CaseDecl>,
}

/// The distinguishable kinds of validation failure.
#[derive(Clone, Copy, Debug, PartialEq, Eq, Structural)]
pub enum ErrorKind {
    /// The declaration lacks the required representation-width annotation.
    MissingIndexRepresentation,
    /// The declaration is not a closed sum of named cases.
    NotAnEnumeration,
    /// The declaration has zero cases.
    EmptyEnumeration,
    /// A case carries structural fields.
    CaseHasFields,
    /// A case declares an explicit numeric tag.
    ExplicitDiscriminant,
    /// A case lacks the text template the display generator needs.
    MissingDisplayTemplate,
}

/// Where a validation failure is reported: at the declaration as a whole,
/// at the case with the given position, or at that case's explicit tag.
#[derive(Clone, Copy, Debug, PartialEq, Eq, Structural)]
pub enum ErrorSite {
    Declaration,
    Case(usize),
    Tag(usize),
}

/// A located validation failure.
#[derive(Clone, Copy, Debug, PartialEq, Eq, Structural)]
pub struct ValidationError {
    pub kind: ErrorKind,
    pub site: ErrorSite,
}

/// The validated case model: the outcome of a successful shape validation,
/// and the only input the generator accepts. The case names stand in
/// declaration order, and that order is the index order.
#[derive(Debug)]
pub struct UnitEnum {
    pub name: String,
    pub cases: Vec<String>,
}

impl UnitEnum {
    /// The invariant validation establishes: the case list is non-empty.
    pub open spec fn wf(&self) -> bool {
        self.cases@.len() > 0
    }
}

/// One entry of the display model: a case name with its text template.
#[derive(Debug)]
pub struct DisplayEntry {
    pub case_name: String,
    pub template: String,
}

/// The display case model: one template per case, in declaration order,
/// one-to-one with the cases of the declaration it was built from.
#[derive(Debug)]
pub struct DisplayModel {
    pub name: String,
    pub entries: Vec<DisplayEntry>,
}

impl ValidationError {
    /// The message a diagnostic for this failure carries.
    pub open spec fn spec_message(&self) -> Seq<char> {
        match self.kind {
            ErrorKind::MissingIndexRepresentation => "enum must have a `#[repr(usize)]`"@,
            ErrorKind::NotAnEnumeration => "`EnumSelect` can only be derived on enums"@,
            ErrorKind::EmptyEnumeration => "enum must be non-empty"@,
            ErrorKind::CaseHasFields => "all variants must be a unit variant"@,
            ErrorKind::ExplicitDiscriminant => "all variants must have the default discriminant"@,
            ErrorKind::MissingDisplayTemplate => "`#[display(...)]` attribute required for all variants"@,
        }
    }

    /// The message a diagnostic for this failure carries, one fixed text
    /// per error kind.
    pub fn message(&self) -> (m: &'static str)
        ensures
            m@ == self.spec_message(),
    {
        match self.kind {
            ErrorKind::MissingIndexRepresentation => "enum must have a `#[repr(usize)]`",
            ErrorKind::NotAnEnumeration => "`EnumSelect` can only be derived on enums",
            ErrorKind::EmptyEnumeration => "enum must be non-empty",
            ErrorKind::CaseHasFields => "all variants must be a unit variant",
            ErrorKind::ExplicitDiscriminant => "all variants must have the default discriminant",
            ErrorKind::MissingDisplayTemplate => "`#[display(...)]` attribute required for all variants",
        }
    }
}

} // verus!
