//! The shape validator: it decides which declarations can safely support
//! positional indexing, and runs the template check the display generator
//! needs.

use vstd::prelude::*;

use crate::model::{
    CaseDecl, Declaration, DisplayEntry, DisplayModel, ErrorKind, ErrorSite, UnitEnum,
    ValidationError,
};

verus! {

/// The per-case violations of one case at position `i`: a structural-field
/// error at the case, then an explicit-tag error at the tag, each only where
/// the case offends.
pub open spec fn errors_of_case(c: CaseDecl, i: usize) -> Seq<ValidationError> {
    let field_errs = if c.has_fields {
        seq![ValidationError { kind: ErrorKind::CaseHasFields, site: ErrorSite::Case(i) }]
    } else {
        Seq::<ValidationError>::empty()
    };
    let tag_errs = if c.has_explicit_tag {
        seq![ValidationError { kind: ErrorKind::ExplicitDiscriminant, site: ErrorSite::Tag(i) }]
    } else {
        Seq::<ValidationError>::empty()
    };
    field_errs + tag_errs
}

/// The accumulated per-case violations of the first `n` cases, in case
/// order.
pub open spec fn case_errors_upto(cases: Seq<CaseDecl>, n: int) -> Seq<ValidationError>
    decreases n,
{
    if n <= 0 {
        Seq::<ValidationError>::empty()
    } else {
        case_errors_upto(cases, n - 1) + errors_of_case(cases[n - 1], (n - 1) as usize)
    }
}

/// The accumulated per-case violations of all cases, in case order.
pub open spec fn case_errors(cases: Seq<CaseDecl>) -> Seq<ValidationError> {
    case_errors_upto(cases, cases.len() as int)
}

/// Validates a declaration as a unit enumeration with a dense zero-based
/// positional representation.
///
/// The checks run in this order: the representation-width annotation
/// (fatal on its own, nothing else is reported), then the shape, then
/// non-emptiness, and last the per-case checks, which accumulate every
/// violation before failing. A declaration that passes them all yields the
/// validated case model: its name and its case names in declaration order.
pub fn validate(decl: &Declaration) -> (r: Result<UnitEnum, Vec<ValidationError>>)
    ensures
        !decl.has_index_repr ==> (r matches Err(es) && es@ == seq![
            ValidationError {
                kind: ErrorKind::MissingIndexRepresentation,
                site: ErrorSite::Declaration,
            },
        ]),
        decl.has_index_repr && !decl.is_enumeration ==> (r matches Err(es) && es@ == seq![
            ValidationError { kind: ErrorKind::NotAnEnumeration, site: ErrorSite::Declaration },
        ]),
        decl.has_index_repr && decl.is_enumeration && decl.cases@.len() == 0 ==> (r matches Err(es)
            && es@ == seq![
            ValidationError { kind: ErrorKind::EmptyEnumeration, site: ErrorSite::Declaration },
        ]),
        decl.has_index_repr && decl.is_enumeration && decl.cases@.len() > 0 && case_errors(
            decl.cases@,
        ).len() > 0 ==> (r matches Err(es) && es@ == case_errors(decl.cases@)),
        decl.has_index_repr && decl.is_enumeration && decl.cases@.len() > 0 && case_errors(
            decl.cases@,
        ).len() == 0 ==> (r matches Ok(m) && m.wf() && m.name@ == decl.name@
            && m.cases@.len() == decl.cases@.len() && (forall|j: int|
            0 <= j < m.cases@.len() ==> m.cases@[j]@ == decl.cases@[j].name@)),
{
    if !decl.has_index_repr {
        let mut es: Vec<ValidationError> = Vec::new();
        es.push(
            ValidationError {
                kind: ErrorKind::MissingIndexRepresentation,
                site: ErrorSite::Declaration,
            },
        );
        proof {
            assert(es@ =~= seq![
                ValidationError {
                    kind: ErrorKind::MissingIndexRepresentation,
                    site: ErrorSite::Declaration,
                },
            ]);
        }
        return Err(es);
    }
    if !decl.is_enumeration {
        let mut es: Vec<ValidationError> = Vec::new();
        es.push(
            ValidationError { kind: ErrorKind::NotAnEnumeration, site: ErrorSite::Declaration },
        );
        proof {
            assert(es@ =~= seq![
                ValidationError { kind: ErrorKind::NotAnEnumeration, site: ErrorSite::Declaration },
            ]);
        }
        return Err(es);
    }
    let n = decl.cases.len();
    if n == 0 {
        let mut es: Vec<ValidationError> = Vec::new();
        es.push(
            ValidationError { kind: ErrorKind::EmptyEnumeration, site: ErrorSite::Declaration },
        );
        proof {
            assert(es@ =~= seq![
                ValidationError { kind: ErrorKind::EmptyEnumeration, site: ErrorSite::Declaration },
            ]);
        }
        return Err(es);
    }
    let mut errors: Vec<ValidationError> = Vec::new();
    let mut names: Vec<String> = Vec::new();
    let mut idx: usize = 0;
    while idx < n
        invariant
            n == decl.cases@.len(),
            idx <= n,
            errors@ == case_errors_upto(decl.cases@, idx as int),
            names@.len() == idx,
            forall|j: int| 0 <= j < idx ==> names@[j]@ == decl.cases@[j].name@,
        decreases n - idx,
    {
        let c = &decl.cases[idx];
        if c.has_fields {
            errors.push(ValidationError { kind: ErrorKind::CaseHasFields, site: ErrorSite::Case(idx) });
        }
        if c.has_explicit_tag {
            errors.push(
                ValidationError { kind: ErrorKind::ExplicitDiscriminant, site: ErrorSite::Tag(idx) },
            );
        }
        proof {
            assert(errors@ =~= case_errors_upto(decl.cases@, idx as int + 1));
        }
        names.push(c.name.clone());
        idx += 1;
    }
    if errors.len() > 0 {
        Err(errors)
    } else {
        Ok(UnitEnum { name: decl.name.clone(), cases: names })
    }
}

/// The missing-template violations among the first `n` cases, in case
/// order: one error at each case that carries no text template.
pub open spec fn template_errors_upto(cases: Seq<CaseDecl>, n: int) -> Seq<ValidationError>
    decreases n,
{
    if n <= 0 {
        Seq::<ValidationError>::empty()
    } else {
        template_errors_upto(cases, n - 1) + (if cases[n - 1].template is None {
            seq![
                ValidationError {
                    kind: ErrorKind::MissingDisplayTemplate,
                    site: ErrorSite::Case((n - 1) as usize),
                },
            ]
        } else {
            Seq::<ValidationError>::empty()
        })
    }
}

/// The missing-template violations among all cases, in case order.
pub open spec fn template_errors(cases: Seq<CaseDecl>) -> Seq<ValidationError> {
    template_errors_upto(cases, cases.len() as int)
}

/// Validates a declaration for display generation: the declaration must be
/// a closed sum of named cases, and every case must carry exactly one text
/// template. Missing templates are accumulated, one error per offending
/// case, before failing. A declaration that passes yields the display case
/// model: one (case name, template) entry per case, in declaration order.
pub fn validate_display(decl: &Declaration) -> (r: Result<DisplayModel, Vec<ValidationError>>)
    ensures
        !decl.is_enumeration ==> (r matches Err(es) && es@ == seq![
            ValidationError { kind: ErrorKind::NotAnEnumeration, site: ErrorSite::Declaration },
        ]),
        decl.is_enumeration && template_errors(decl.cases@).len() > 0 ==> (r matches Err(es) && es@
            == template_errors(decl.cases@)),
        decl.is_enumeration && template_errors(decl.cases@).len() == 0 ==> (r matches Ok(m)
            && m.name@ == decl.name@ && m.entries@.len() == decl.cases@.len() && (forall|j: int|
            0 <= j < m.entries@.len() ==> m.entries@[j].case_name@ == decl.cases@[j].name@ && (
            decl.cases@[j].template matches Some(t) && m.entries@[j].template@ == t@))),
{
    if !decl.is_enumeration {
        let mut es: Vec<ValidationError> = Vec::new();
        es.push(
            ValidationError { kind: ErrorKind::NotAnEnumeration, site: ErrorSite::Declaration },
        );
        proof {
            assert(es@ =~= seq![
                ValidationError { kind: ErrorKind::NotAnEnumeration, site: ErrorSite::Declaration },
            ]);
        }
        return Err(es);
    }
    let n = decl.cases.len();
    let mut errors: Vec<ValidationError> = Vec::new();
    let mut entries: Vec<DisplayEntry> = Vec::new();
    let mut idx: usize = 0;
    while idx < n
        invariant
            n == decl.cases@.len(),
            idx <= n,
            errors@ == template_errors_upto(decl.cases@, idx as int),
            errors@.len() == 0 ==> entries@.len() == idx && (forall|j: int|
                0 <= j < idx ==> entries@[j].case_name@ == decl.cases@[j].name@ && (
                decl.cases@[j].template matches Some(t) && entries@[j].template@ == t@)),
        decreases n - idx,
    {
        let c = &decl.cases[idx];
        match &c.template {
            Some(t) => {
                entries.push(DisplayEntry { case_name: c.name.clone(), template: t.clone() });
            },
            None => {
                errors.push(
                    ValidationError {
                        kind: ErrorKind::MissingDisplayTemplate,
                        site: ErrorSite::Case(idx),
                    },
                );
            },
        }
        proof {
            assert(errors@ =~= template_errors_upto(decl.cases@, idx as int + 1));
        }
        idx += 1;
    }
    if errors.len() > 0 {
        Err(errors)
    } else {
        Ok(DisplayModel { name: decl.name.clone(), entries })
    }
}

} // verus!
