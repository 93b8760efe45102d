use aha_workflow::matcher::{match_identifier, match_key, RecordKind};
use aha_workflow::status::resolve_status;

fn found(title: &str) -> Option<(RecordKind, String)> {
    match_identifier(title).map(|m| (m.kind, m.key))
}

#[test]
fn requirement_key_is_matched_first() {
    assert_eq!(found("ENG-12-3 Fix bug"), Some((RecordKind::Requirement, "ENG-12-3".to_string())));
}

#[test]
fn feature_key_is_matched() {
    assert_eq!(found("ENG-12 Fix bug"), Some((RecordKind::Feature, "ENG-12".to_string())));
}

#[test]
fn title_without_key_is_ignored() {
    assert_eq!(found("misc: cleanup"), None);
}

#[test]
fn title_is_trimmed_before_matching() {
    assert_eq!(found("  \tAPI-7-10 tidy"), Some((RecordKind::Requirement, "API-7-10".to_string())));
    assert!(match_key("  API-7").is_none());
}

#[test]
fn key_needs_letters_dash_and_digits() {
    assert_eq!(found("eng-12 lower case"), None);
    assert_eq!(found("ENG- no digits"), None);
    assert_eq!(found("-12 no letters"), None);
    assert_eq!(found("ENG12"), None);
    assert_eq!(found(""), None);
}

#[test]
fn trailing_dash_leaves_a_feature_key() {
    assert_eq!(found("ENG-12-x"), Some((RecordKind::Feature, "ENG-12".to_string())));
    assert_eq!(found("ENG-12-"), Some((RecordKind::Feature, "ENG-12".to_string())));
}

#[test]
fn digits_run_to_their_end() {
    assert_eq!(found("AB-1234abc"), Some((RecordKind::Feature, "AB-1234".to_string())));
    assert_eq!(found("AB-1-22-3"), Some((RecordKind::Requirement, "AB-1-22".to_string())));
}

fn labels(names: &[&str]) -> Vec<String> {
    names.iter().map(|s| s.to_string()).collect()
}

#[test]
fn second_matching_label_decides() {
    let r = resolve_status(&labels(&["Needs code review", "Ready"]), None);
    assert_eq!(r, Some("Ready to ship".to_string()));
}

#[test]
fn one_matching_label_resolves_to_none() {
    assert_eq!(resolve_status(&labels(&["Needs code review"]), None), None);
    assert_eq!(resolve_status(&labels(&["bug", "Ready", "wip"]), None), None);
    assert_eq!(resolve_status(&labels(&[]), None), None);
}

#[test]
fn labels_without_status_are_skipped() {
    let r = resolve_status(&labels(&["bug", "In development", "wip", "Needs PM review", "Ready"]), None);
    assert_eq!(r, Some("In PM review".to_string()));
}

#[test]
fn override_table_takes_precedence() {
    let table = vec![
        ("Ready".to_string(), "Shipped".to_string()),
        ("bug".to_string(), "Triage".to_string()),
    ];
    let r = resolve_status(&labels(&["bug", "Ready"]), Some(&table));
    assert_eq!(r, Some("Shipped".to_string()));
    let r = resolve_status(&labels(&["Needs code review", "In development"]), Some(&table));
    assert_eq!(r, Some("In development".to_string()));
}

#[test]
fn first_override_entry_wins() {
    let table = vec![
        ("x".to_string(), "One".to_string()),
        ("x".to_string(), "Two".to_string()),
    ];
    let r = resolve_status(&labels(&["Ready", "x"]), Some(&table));
    assert_eq!(r, Some("One".to_string()));
}
