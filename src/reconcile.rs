use vstd::prelude::*;

use crate::github::PullRequest;
use crate::matcher::{identify, match_identifier, IdentifierMatch};
use crate::record::TrackerRecord;
use crate::status::{resolve_status, resolved_status, table_view};
use crate::text::trimmed;
use crate::update::{is_noop, plan_update, planned_update, FeatureUpdate, UpdateView};

verus! {

/// What the reconciliation is told to do.
#[derive(Clone, Debug)]
pub struct ReconcileSettings {
    /// Plan the updates but send none.
    pub dry_run: bool,
    /// Raise no notification.
    pub silent: bool,
    pub verbose: bool,
    /// The user that records get assigned to.
    pub workflow_email: String,
    /// Label to status entries that take precedence over the built-in ones.
    pub status_overrides: Option<Vec<(String, String)>>,
}

/// What to do about one record: the planned update, whether to notify the
/// user, and whether to send the update.
#[derive(Clone, Debug)]
pub struct Reconciliation {
    pub update: FeatureUpdate,
    pub notify: bool,
    pub submit: bool,
}

/// The override table of the settings, as a view.
pub open spec fn overrides_of(settings: ReconcileSettings) -> Option<Seq<(String, String)>> {
    match settings.status_overrides {
        Some(t) => Some(t@),
        None => None,
    }
}

/// The update planned for `record` from pull request `pr`.
pub open spec fn update_for(settings: ReconcileSettings, pr: PullRequest, record: TrackerRecord) -> UpdateView {
    planned_update(
        record,
        pr.url@,
        resolved_status(overrides_of(settings), pr.labels.deep_view()),
        settings.workflow_email@,
    )
}

/// Decides what to do about `record`, fetched for pull request `pr`. The
/// update is the least one (see `plan_update`) with the status that the
/// pull request's labels resolve to. A non-empty update is sent unless this
/// is a dry run, and raises a notification unless silent, where the record
/// has an address.
pub fn reconcile_record(
    settings: &ReconcileSettings,
    pr: &PullRequest,
    record: &TrackerRecord,
) -> (r: Reconciliation)
    ensures
        r.update@ == update_for(*settings, *pr, *record),
        r.submit == (!settings.dry_run && !is_noop(r.update@)),
        r.notify == (!settings.silent && !is_noop(r.update@) && record.url.is_some()),
{
    let table = match &settings.status_overrides {
        Some(t) => Some(t),
        None => None,
    };
    assert(table_view(table) == overrides_of(*settings));
    let resolved = resolve_status(&pr.labels, table);
    let update = plan_update(record, pr.url.as_str(), resolved, settings.workflow_email.as_str());
    let empty = update.is_empty();
    Reconciliation {
        update,
        notify: !settings.silent && !empty && record.url.is_some(),
        submit: !settings.dry_run && !empty,
    }
}

/// The pull requests to reconcile, and how far the run has gone.
#[derive(Clone, Debug)]
pub struct Reconciler {
    pub pulls: Vec<PullRequest>,
    /// The index of the next pull request to look at.
    pub position: usize,
}

/// None of the pull requests from `from` up to `to` names a record.
pub open spec fn none_match(pulls: Seq<PullRequest>, from: int, to: int) -> bool {
    forall|k: int| from <= k < to ==> identify(trimmed((#[trigger] pulls[k]).name@)).is_none()
}

impl Reconciler {
    /// A run over `pulls`, from the first.
    pub fn new(pulls: Vec<PullRequest>) -> (r: Reconciler)
        ensures
            r.pulls == pulls,
            r.position == 0,
    {
        Reconciler { pulls, position: 0 }
    }

    /// The next pull request whose title names a record, with the record's
    /// kind and key; the ones before it are skipped. `None` once no pull
    /// request is left that names one.
    pub fn next_match(&mut self) -> (r: Option<(usize, IdentifierMatch)>)
        requires
            old(self).position <= old(self).pulls@.len(),
        ensures
            final(self).pulls == old(self).pulls,
            final(self).position <= final(self).pulls@.len(),
            match r {
                Some((k, m)) => {
                    &&& old(self).position <= k < old(self).pulls@.len()
                    &&& none_match(old(self).pulls@, old(self).position as int, k as int)
                    &&& Some(m@) == identify(trimmed(old(self).pulls@[k as int].name@))
                    &&& final(self).position == k + 1
                },
                None => {
                    &&& none_match(old(self).pulls@, old(self).position as int, old(self).pulls@.len() as int)
                    &&& final(self).position == old(self).pulls@.len()
                },
            },
    {
        let ghost start = self.position;
        while self.position < self.pulls.len()
            invariant
                start <= self.position <= self.pulls@.len(),
                self.pulls == old(self).pulls,
                start == old(self).position,
                none_match(self.pulls@, start as int, self.position as int),
            decreases self.pulls.len() - self.position,
        {
            let k = self.position;
            let found = match_identifier(self.pulls[k].name.as_str());
            self.position = k + 1;
            match found {
                Some(m) => {
                    return Some((k, m));
                },
                None => {},
            }
        }
        None
    }
}

} // verus!
