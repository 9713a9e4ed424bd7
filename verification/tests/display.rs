use seenum::algebra::EnumSelect;
use seenum::sample::DurationType;

#[test]
fn display() {
    let displays: Vec<String> = DurationType::all()
        .iter()
        .map(|case| case.render().to_string())
        .collect();

    assert_eq!(
        displays,
        ["1 minute", "5 minutes", "50 words", "100 words", "Endless"]
    );
}

#[test]
fn display_in_declaration_order() {
    let all = DurationType::all();
    assert_eq!(all.len(), DurationType::count());
    assert_eq!(all.len(), 5);
    assert_eq!(all[0].render(), "1 minute");
    assert_eq!(all[1].render(), "5 minutes");
    assert_eq!(all[2].render(), "50 words");
    assert_eq!(all[3].render(), "100 words");
    assert_eq!(all[4].render(), "Endless");
}

#[test]
fn duration_type_navigation() {
    assert_eq!(DurationType::first(), DurationType::Duration1m);
    assert_eq!(DurationType::last(), DurationType::Infinite);
    assert_eq!(DurationType::first().checked_prev(), None);
    assert_eq!(DurationType::last().checked_next(), None);
    assert_eq!(DurationType::last().wrapping_next(), DurationType::first());
    assert_eq!(DurationType::first().wrapping_prev(), DurationType::last());
    assert_eq!(
        DurationType::last().saturating_next(),
        DurationType::Infinite
    );
    assert_eq!(
        DurationType::first().saturating_prev(),
        DurationType::Duration1m
    );
}
