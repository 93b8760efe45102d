use vstd::prelude::*;

use crate::record::{has_assignee, has_linked_pr, status_name, TrackerRecord};
use crate::status::opt_text;
use crate::text::same_text;

verus! {

/// The status part of an update.
#[derive(Clone, Debug)]
pub struct WorkflowStatusUpdate {
    pub name: String,
}

/// The linked pull request part of an update.
#[derive(Clone, Debug)]
pub struct CustomFieldGithub {
    pub github_url: String,
}

/// An update that may also replace the description.
#[derive(Clone, Debug)]
pub struct FeatureUpdateCreate {
    pub description: Option<String>,
    pub assigned_to_user: Option<String>,
    pub custom_fields: Option<CustomFieldGithub>,
    pub workflow_status: Option<WorkflowStatusUpdate>,
}

/// A sparse update of a tracker record: each field is present only where it
/// must change.
#[derive(Clone, Debug)]
pub struct FeatureUpdate {
    pub assigned_to_user: Option<String>,
    pub custom_fields: Option<CustomFieldGithub>,
    pub workflow_status: Option<WorkflowStatusUpdate>,
}

/// What an update sets: the assignee, the linked pull request URL and the status.
pub struct UpdateView {
    pub assignee: Option<Seq<char>>,
    pub linked_pr: Option<Seq<char>>,
    pub status: Option<Seq<char>>,
}

impl View for FeatureUpdate {
    type V = UpdateView;

    open spec fn view(&self) -> UpdateView {
        UpdateView {
            assignee: opt_text(self.assigned_to_user),
            linked_pr: match self.custom_fields {
                Some(c) => Some(c.github_url@),
                None => None,
            },
            status: match self.workflow_status {
                Some(w) => Some(w.name@),
                None => None,
            },
        }
    }
}

/// An update that sets nothing.
pub open spec fn is_noop(u: UpdateView) -> bool {
    u.assignee.is_none() && u.linked_pr.is_none() && u.status.is_none()
}

/// The status that applies when the labels resolved to none.
pub open spec fn fallback_status(r: TrackerRecord) -> Option<Seq<char>> {
    if status_name(r) == Some("Ready to develop"@) || status_name(r) == Some("Under consideration"@) {
        Some("In code review"@)
    } else {
        None
    }
}

/// The least update that brings `r` in line with a pull request at `pr_url`,
/// given the resolved status and the workflow user's email.
pub open spec fn planned_update(
    r: TrackerRecord,
    pr_url: Seq<char>,
    resolved: Option<Seq<char>>,
    email: Seq<char>,
) -> UpdateView {
    UpdateView {
        assignee: if has_assignee(r) {
            None
        } else {
            Some(email)
        },
        linked_pr: if has_linked_pr(r) {
            None
        } else {
            Some(pr_url)
        },
        status: match resolved {
            Some(s) => Some(s),
            None => fallback_status(r),
        },
    }
}

impl FeatureUpdate {
    /// Whether the update sets nothing, and so must not be sent.
    pub fn is_empty(&self) -> (r: bool)
        ensures
            r == is_noop(self@),
    {
        self.assigned_to_user.is_none() && self.custom_fields.is_none()
            && self.workflow_status.is_none()
    }
}

/// Whether the record carries a custom field named `Pull Request`.
pub fn linked_pr_present(record: &TrackerRecord) -> (r: bool)
    ensures
        r == has_linked_pr(*record),
{
    let mut i: usize = 0;
    while i < record.custom_fields.len()
        invariant
            i <= record.custom_fields@.len(),
            forall|j: int| 0 <= j < i ==> #[trigger] record.custom_fields@[j].name@ != "Pull Request"@,
        decreases record.custom_fields.len() - i,
    {
        if same_text(record.custom_fields[i].name.as_str(), "Pull Request") {
            return true;
        }
        i = i + 1;
    }
    false
}

/// Whether a user is assigned to the record.
pub fn assignee_present(record: &TrackerRecord) -> (r: bool)
    ensures
        r == has_assignee(*record),
{
    match &record.assigned_to_user {
        Some(a) => a.unicode_len() > 0,
        None => false,
    }
}

/// The status to fall back on when no label resolved to one.
pub fn fallback_status_of(record: &TrackerRecord) -> (r: Option<String>)
    ensures
        opt_text(r) == fallback_status(*record),
{
    match &record.workflow_status {
        Some(w) => {
            if same_text(w.name.as_str(), "Ready to develop") || same_text(
                w.name.as_str(),
                "Under consideration",
            ) {
                Some(String::from_str("In code review"))
            } else {
                None
            }
        },
        None => None,
    }
}

/// Computes the least update for `record` from a pull request at `pr_url`:
/// the assignee only where nobody is assigned, the link only where none is
/// there yet, and the resolved status (or the fallback where none resolved).
pub fn plan_update(
    record: &TrackerRecord,
    pr_url: &str,
    resolved: Option<String>,
    workflow_email: &str,
) -> (r: FeatureUpdate)
    ensures
        r@ == planned_update(*record, pr_url@, opt_text(resolved), workflow_email@),
{
    let assigned_to_user = if assignee_present(record) {
        None
    } else {
        Some(String::from_str(workflow_email))
    };
    let custom_fields = if linked_pr_present(record) {
        None
    } else {
        Some(CustomFieldGithub { github_url: String::from_str(pr_url) })
    };
    let workflow_status = match resolved {
        Some(s) => Some(WorkflowStatusUpdate { name: s }),
        None => match fallback_status_of(record) {
            Some(s) => Some(WorkflowStatusUpdate { name: s }),
            None => None,
        },
    };
    FeatureUpdate { assigned_to_user, custom_fields, workflow_status }
}

} // verus!
