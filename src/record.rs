use vstd::prelude::*;

verus! {

/// The workflow status of a feature or requirement.
#[derive(Clone, Debug)]
pub struct WorkflowStatus {
    pub name: String,
    /// The status colour, as a hex code such as `#ff8800`.
    pub color: String,
}

/// One custom field of a tracker record.
#[derive(Clone, Debug)]
pub struct CustomField {
    pub name: String,
    pub value: String,
}

/// A project, release, feature or requirement of the tracker, with the
/// fields that the browser and the reconciliation read.
#[derive(Clone, Debug)]
pub struct TrackerRecord {
    pub id: String,
    pub name: String,
    pub reference_num: Option<String>,
    pub workflow_status: Option<WorkflowStatus>,
    /// The name of the assigned user; `None` where nobody is assigned.
    pub assigned_to_user: Option<String>,
    pub custom_fields: Vec<CustomField>,
    /// The description, as HTML.
    pub description: Option<String>,
    pub url: Option<String>,
}

/// A feature with its requirements, in the order the tracker lists them.
#[derive(Clone, Debug)]
pub struct Feature {
    pub record: TrackerRecord,
    pub requirements: Vec<TrackerRecord>,
}

/// The record's current status name, if it has a status.
pub open spec fn status_name(r: TrackerRecord) -> Option<Seq<char>> {
    match r.workflow_status {
        Some(w) => Some(w.name@),
        None => None,
    }
}

/// Someone is assigned: the assignee is present and not empty.
pub open spec fn has_assignee(r: TrackerRecord) -> bool {
    match r.assigned_to_user {
        Some(a) => a@.len() > 0,
        None => false,
    }
}

/// The record already carries a custom field named `Pull Request`.
pub open spec fn has_linked_pr(r: TrackerRecord) -> bool {
    exists|i: int| 0 <= i < r.custom_fields@.len() && #[trigger] r.custom_fields@[i].name@ == "Pull Request"@
}

} // verus!
