use seenum::model::{CaseDecl, Declaration, ErrorKind, ErrorSite, ValidationError};
use seenum::validate::{validate, validate_display};

fn unit_case(name: &str) -> CaseDecl {
    CaseDecl {
        name: name.to_string(),
        has_fields: false,
        has_explicit_tag: false,
        template: None,
    }
}

fn templated_case(name: &str, template: &str) -> CaseDecl {
    CaseDecl {
        name: name.to_string(),
        has_fields: false,
        has_explicit_tag: false,
        template: Some(template.to_string()),
    }
}

fn enum_declaration(name: &str, cases: Vec<CaseDecl>) -> Declaration {
    Declaration {
        name: name.to_string(),
        is_enumeration: true,
        has_index_repr: true,
        cases,
    }
}

#[test]
fn accepts_unit_enumeration() {
    let decl = enum_declaration("E", vec![unit_case("A"), unit_case("B"), unit_case("C")]);
    let model = validate(&decl).unwrap();
    assert_eq!(model.name, "E");
    assert_eq!(model.cases, ["A", "B", "C"]);
}

#[test]
fn rejects_missing_index_representation() {
    let decl = Declaration {
        name: "E".to_string(),
        is_enumeration: true,
        has_index_repr: false,
        cases: vec![unit_case("A")],
    };
    let errors = validate(&decl).unwrap_err();
    assert_eq!(
        errors,
        [ValidationError {
            kind: ErrorKind::MissingIndexRepresentation,
            site: ErrorSite::Declaration,
        }]
    );
    assert_eq!(errors[0].message(), "enum must have a `#[repr(usize)]`");
}

#[test]
fn rejects_non_enumeration() {
    let decl = Declaration {
        name: "S".to_string(),
        is_enumeration: false,
        has_index_repr: true,
        cases: Vec::new(),
    };
    let errors = validate(&decl).unwrap_err();
    assert_eq!(
        errors,
        [ValidationError {
            kind: ErrorKind::NotAnEnumeration,
            site: ErrorSite::Declaration,
        }]
    );
}

#[test]
fn rejects_empty_enumeration() {
    let decl = enum_declaration("E", Vec::new());
    let errors = validate(&decl).unwrap_err();
    assert_eq!(
        errors,
        [ValidationError {
            kind: ErrorKind::EmptyEnumeration,
            site: ErrorSite::Declaration,
        }]
    );
}

#[test]
fn rejects_case_with_tuple_fields() {
    // enum Thing { None, Some() }
    let mut with_fields = unit_case("Some");
    with_fields.has_fields = true;
    let decl = enum_declaration("Thing", vec![unit_case("None"), with_fields]);
    let errors = validate(&decl).unwrap_err();
    assert_eq!(
        errors,
        [ValidationError {
            kind: ErrorKind::CaseHasFields,
            site: ErrorSite::Case(1),
        }]
    );
    assert_eq!(errors[0].message(), "all variants must be a unit variant");
}

#[test]
fn rejects_case_with_named_fields() {
    // enum Fields { Square { side_len: u32 }, Dot }
    let mut square = unit_case("Square");
    square.has_fields = true;
    let decl = enum_declaration("Fields", vec![square, unit_case("Dot")]);
    let errors = validate(&decl).unwrap_err();
    assert_eq!(
        errors,
        [ValidationError {
            kind: ErrorKind::CaseHasFields,
            site: ErrorSite::Case(0),
        }]
    );
}

#[test]
fn rejects_explicit_discriminant() {
    let mut tagged = unit_case("B");
    tagged.has_explicit_tag = true;
    let decl = enum_declaration("E", vec![unit_case("A"), tagged]);
    let errors = validate(&decl).unwrap_err();
    assert_eq!(
        errors,
        [ValidationError {
            kind: ErrorKind::ExplicitDiscriminant,
            site: ErrorSite::Tag(1),
        }]
    );
    assert_eq!(
        errors[0].message(),
        "all variants must have the default discriminant"
    );
}

#[test]
fn accumulates_all_case_violations() {
    let mut both = unit_case("A");
    both.has_fields = true;
    both.has_explicit_tag = true;
    let mut tagged = unit_case("C");
    tagged.has_explicit_tag = true;
    let decl = enum_declaration("E", vec![both, unit_case("B"), tagged]);
    let errors = validate(&decl).unwrap_err();
    assert_eq!(
        errors,
        [
            ValidationError {
                kind: ErrorKind::CaseHasFields,
                site: ErrorSite::Case(0),
            },
            ValidationError {
                kind: ErrorKind::ExplicitDiscriminant,
                site: ErrorSite::Tag(0),
            },
            ValidationError {
                kind: ErrorKind::ExplicitDiscriminant,
                site: ErrorSite::Tag(2),
            },
        ]
    );
}

#[test]
fn missing_representation_short_circuits() {
    // Even with per-case violations present, only the representation-width
    // failure is reported when the annotation is missing.
    let mut with_fields = unit_case("A");
    with_fields.has_fields = true;
    let decl = Declaration {
        name: "E".to_string(),
        is_enumeration: true,
        has_index_repr: false,
        cases: vec![with_fields],
    };
    let errors = validate(&decl).unwrap_err();
    assert_eq!(errors.len(), 1);
    assert_eq!(errors[0].kind, ErrorKind::MissingIndexRepresentation);
}

#[test]
fn display_accepts_fully_templated_enumeration() {
    let decl = enum_declaration(
        "DurationType",
        vec![
            templated_case("Duration1m", "1 minute"),
            templated_case("Duration5m", "5 minutes"),
            templated_case("Number50", "50 words"),
            templated_case("Number100", "100 words"),
            templated_case("Infinite", "Endless"),
        ],
    );
    let model = validate_display(&decl).unwrap();
    assert_eq!(model.name, "DurationType");
    assert_eq!(model.entries.len(), 5);
    assert_eq!(model.entries[0].case_name, "Duration1m");
    assert_eq!(model.entries[0].template, "1 minute");
    assert_eq!(model.entries[4].case_name, "Infinite");
    assert_eq!(model.entries[4].template, "Endless");
}

#[test]
fn display_rejects_non_enumeration() {
    let decl = Declaration {
        name: "S".to_string(),
        is_enumeration: false,
        has_index_repr: false,
        cases: Vec::new(),
    };
    let errors = validate_display(&decl).unwrap_err();
    assert_eq!(
        errors,
        [ValidationError {
            kind: ErrorKind::NotAnEnumeration,
            site: ErrorSite::Declaration,
        }]
    );
}

#[test]
fn display_reports_every_missing_template() {
    let decl = enum_declaration(
        "E",
        vec![
            templated_case("A", "a"),
            unit_case("B"),
            templated_case("C", "c"),
            unit_case("D"),
        ],
    );
    let errors = validate_display(&decl).unwrap_err();
    assert_eq!(
        errors,
        [
            ValidationError {
                kind: ErrorKind::MissingDisplayTemplate,
                site: ErrorSite::Case(1),
            },
            ValidationError {
                kind: ErrorKind::MissingDisplayTemplate,
                site: ErrorSite::Case(3),
            },
        ]
    );
    assert_eq!(
        errors[0].message(),
        "`#[display(...)]` attribute required for all variants"
    );
}

#[test]
fn display_does_not_require_index_representation() {
    let decl = Declaration {
        name: "E".to_string(),
        is_enumeration: true,
        has_index_repr: false,
        cases: vec![templated_case("A", "a")],
    };
    assert!(validate_display(&decl).is_ok());
}
