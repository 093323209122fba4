use hub_core::rule::{
    marker_severity, marks_source, parse_fields, DefinitionError, Markers, SeverityRule,
};
use hub_core::triage::Severity;

fn markers(names: &[&str]) -> Markers {
    names
        .iter()
        .map(|n| if n.is_empty() { None } else { Some((*n).to_string()) })
        .collect()
}

fn fields(list: &[&[&str]]) -> Vec<Markers> {
    list.iter().map(|f| markers(f)).collect()
}

#[test]
fn unmarked_variant_is_permanent() {
    let plan = parse_fields(&markers(&[]), &fields(&[]));
    assert_eq!(plan.rule, SeverityRule::Fixed(Severity::Permanent));
    assert!(plan.errors.is_empty());
    let plan = parse_fields(&markers(&["error", "doc", ""]), &fields(&[&[], &["doc"]]));
    assert_eq!(plan.rule, SeverityRule::Fixed(Severity::Permanent));
    assert!(plan.errors.is_empty());
}

#[test]
fn named_severity_is_fixed() {
    for (name, severity) in [
        ("transient", Severity::Transient),
        ("permanent", Severity::Permanent),
        ("fatal", Severity::Fatal),
    ] {
        let plan = parse_fields(&markers(&["error", name]), &fields(&[&[]]));
        assert_eq!(plan.rule, SeverityRule::Fixed(severity));
        assert!(plan.errors.is_empty());
    }
}

#[test]
fn marked_field_is_deferred_to() {
    let plan = parse_fields(&markers(&["error"]), &fields(&[&[], &["source"], &[]]));
    assert_eq!(plan.rule, SeverityRule::Defer(1));
    assert!(plan.errors.is_empty());
    let plan = parse_fields(&markers(&[]), &fields(&[&["doc", "from"]]));
    assert_eq!(plan.rule, SeverityRule::Defer(0));
    assert!(plan.errors.is_empty());
}

#[test]
fn duplicate_severity_is_an_error() {
    let plan = parse_fields(&markers(&["fatal", "doc", "transient", "permanent"]), &fields(&[]));
    // The last one named stands.
    assert_eq!(plan.rule, SeverityRule::Fixed(Severity::Permanent));
    assert_eq!(
        plan.errors,
        vec![
            DefinitionError::DuplicateSeverity { attr: 2 },
            DefinitionError::DuplicateSeverity { attr: 3 },
        ]
    );
}

#[test]
fn multiple_sources_are_an_error() {
    let plan = parse_fields(&markers(&[]), &fields(&[&["source"], &[], &["from"]]));
    // The last one marked stands.
    assert_eq!(plan.rule, SeverityRule::Defer(2));
    assert_eq!(plan.errors, vec![DefinitionError::MultipleSources { field: 2 }]);
}

#[test]
fn severity_with_source_is_an_error() {
    let plan = parse_fields(&markers(&["transient"]), &fields(&[&["source"]]));
    assert_eq!(plan.rule, SeverityRule::Fixed(Severity::Transient));
    assert_eq!(plan.errors, vec![DefinitionError::SeverityWithSource]);
}

#[test]
fn errors_come_in_order() {
    let plan = parse_fields(
        &markers(&["fatal", "fatal"]),
        &fields(&[&["from"], &["source", "from"]]),
    );
    assert_eq!(plan.rule, SeverityRule::Fixed(Severity::Fatal));
    assert_eq!(
        plan.errors,
        vec![
            DefinitionError::DuplicateSeverity { attr: 1 },
            DefinitionError::MultipleSources { field: 1 },
            DefinitionError::SeverityWithSource,
        ]
    );
}

#[test]
fn marker_names() {
    assert_eq!(marker_severity(&Some("transient".into())), Some(Severity::Transient));
    assert_eq!(marker_severity(&Some("Transient".into())), None);
    assert_eq!(marker_severity(&Some("source".into())), None);
    assert_eq!(marker_severity(&None), None);
    assert!(marks_source(&markers(&["source"])));
    assert!(marks_source(&markers(&["doc", "from"])));
    assert!(!marks_source(&markers(&["doc", "fatal", ""])));
    assert!(!marks_source(&markers(&[])));
}

#[test]
fn rule_applies_to_an_error() {
    let causes = vec![Severity::Fatal, Severity::Transient];
    assert_eq!(
        SeverityRule::Fixed(Severity::Permanent).severity(&causes),
        Some(Severity::Permanent)
    );
    assert_eq!(SeverityRule::Defer(0).severity(&causes), Some(Severity::Fatal));
    assert_eq!(SeverityRule::Defer(1).severity(&causes), Some(Severity::Transient));
    assert_eq!(SeverityRule::Defer(2).severity(&causes), None);
}
