use aha_workflow::github::PullRequest;
use aha_workflow::record::{CustomField, TrackerRecord, WorkflowStatus};
use aha_workflow::reconcile::{reconcile_record, ReconcileSettings, Reconciler};
use aha_workflow::matcher::RecordKind;
use aha_workflow::update::plan_update;

fn record(assignee: Option<&str>, fields: &[&str], status: &str, url: Option<&str>) -> TrackerRecord {
    TrackerRecord {
        id: "1".to_string(),
        name: "A record".to_string(),
        reference_num: Some("ENG-12".to_string()),
        workflow_status: Some(WorkflowStatus { name: status.to_string(), color: "#00ff00".to_string() }),
        assigned_to_user: assignee.map(|s| s.to_string()),
        custom_fields: fields
            .iter()
            .map(|n| CustomField { name: n.to_string(), value: "x".to_string() })
            .collect(),
        description: None,
        url: url.map(|s| s.to_string()),
    }
}

fn pull(title: &str, labels: &[&str]) -> PullRequest {
    PullRequest {
        number: 42,
        name: title.to_string(),
        url: "https://example.com/pr/42".to_string(),
        labels: labels.iter().map(|s| s.to_string()).collect(),
    }
}

fn settings(dry_run: bool, silent: bool) -> ReconcileSettings {
    ReconcileSettings {
        dry_run,
        silent,
        verbose: false,
        workflow_email: "dev@example.com".to_string(),
        status_overrides: None,
    }
}

#[test]
fn fallback_status_only_when_all_else_is_set() {
    let r = record(Some("Ann"), &["Pull Request"], "Ready to develop", None);
    let u = plan_update(&r, "https://example.com/pr/1", None, "dev@example.com");
    assert_eq!(u.workflow_status.map(|w| w.name), Some("In code review".to_string()));
    assert!(u.assigned_to_user.is_none());
    assert!(u.custom_fields.is_none());
}

#[test]
fn empty_record_gets_all_three_fields() {
    let r = record(None, &[], "Ready to develop", None);
    let u = plan_update(&r, "https://example.com/pr/1", Some("In PM review".to_string()), "dev@example.com");
    assert_eq!(u.assigned_to_user, Some("dev@example.com".to_string()));
    assert_eq!(u.custom_fields.map(|c| c.github_url), Some("https://example.com/pr/1".to_string()));
    assert_eq!(u.workflow_status.map(|w| w.name), Some("In PM review".to_string()));
}

#[test]
fn fallback_covers_under_consideration() {
    let r = record(Some("Ann"), &["Pull Request"], "Under consideration", None);
    let u = plan_update(&r, "u", None, "e");
    assert_eq!(u.workflow_status.map(|w| w.name), Some("In code review".to_string()));
}

#[test]
fn no_fallback_for_other_statuses() {
    let r = record(Some("Ann"), &["Other", "Pull Request"], "In code review", None);
    let u = plan_update(&r, "u", None, "e");
    assert!(u.is_empty());
}

#[test]
fn empty_assignee_counts_as_unassigned() {
    let r = record(Some(""), &["Pull Request"], "Shipped", None);
    let u = plan_update(&r, "u", None, "dev@example.com");
    assert_eq!(u.assigned_to_user, Some("dev@example.com".to_string()));
    assert!(!u.is_empty());
}

#[test]
fn dry_run_never_submits() {
    let r = record(None, &[], "Ready to develop", Some("https://tracker/ENG-12"));
    let out = reconcile_record(&settings(true, false), &pull("ENG-12 work", &[]), &r);
    assert!(!out.update.is_empty());
    assert!(!out.submit);
    assert!(out.notify);
}

#[test]
fn live_run_submits_and_notifies() {
    let r = record(None, &[], "Ready to develop", Some("https://tracker/ENG-12"));
    let out = reconcile_record(&settings(false, false), &pull("ENG-12 work", &["Needs code review", "Ready"]), &r);
    assert!(out.submit);
    assert!(out.notify);
    assert_eq!(out.update.workflow_status.map(|w| w.name), Some("Ready to ship".to_string()));
}

#[test]
fn silent_run_or_missing_url_does_not_notify() {
    let r = record(None, &[], "Ready to develop", Some("https://tracker/ENG-12"));
    let out = reconcile_record(&settings(false, true), &pull("ENG-12 work", &[]), &r);
    assert!(out.submit);
    assert!(!out.notify);
    let r = record(None, &[], "Ready to develop", None);
    let out = reconcile_record(&settings(false, false), &pull("ENG-12 work", &[]), &r);
    assert!(!out.notify);
}

#[test]
fn settled_record_needs_nothing() {
    let r = record(Some("Ann"), &["Pull Request"], "Shipped", Some("https://tracker/ENG-12"));
    let out = reconcile_record(&settings(false, false), &pull("ENG-12 work", &["bug"]), &r);
    assert!(out.update.is_empty());
    assert!(!out.submit);
    assert!(!out.notify);
}

#[test]
fn run_skips_titles_without_key() {
    let pulls = vec![pull("misc", &[]), pull("ENG-1 a", &[]), pull("chore", &[]), pull("ENG-2-3 b", &[])];
    let mut run = Reconciler::new(pulls);
    let (k, m) = run.next_match().unwrap();
    assert_eq!((k, m.kind, m.key.as_str()), (1, RecordKind::Feature, "ENG-1"));
    let (k, m) = run.next_match().unwrap();
    assert_eq!((k, m.kind, m.key.as_str()), (3, RecordKind::Requirement, "ENG-2-3"));
    assert!(run.next_match().is_none());
    assert_eq!(run.position, 4);
}
