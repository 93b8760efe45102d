//! A browser over a tracker's hierarchy of projects, releases, features and
//! requirements, and the reconciliation of open pull requests with the
//! records that their titles name.
//!
//! `app` holds the browser's state machine: navigation, the overlays that
//! take input ahead of it, and the breadcrumb of the last position.
//! `matcher`, `status`, `update` and `reconcile` decide what a pull request
//! changes on its record. Fetching, sending, storing and drawing are left to
//! the caller, which carries out the actions that these functions return.

use vstd::prelude::*;

pub mod app;
pub mod github;
pub mod key_layout;
pub mod list;
pub mod matcher;
pub mod reconcile;
pub mod record;
pub mod rows;
pub mod status;
pub mod text;
pub mod update;
pub mod wizard;

verus! {

/// The options of a run.
#[derive(Clone, Debug)]
pub struct Opt {
    /// The repository to reconcile, as `owner/name`, in place of the configured one.
    pub repo: Option<String>,
    /// Plan the updates but send none.
    pub dry_run: bool,
    /// Raise no notification.
    pub silent: bool,
    pub verbose: bool,
    /// The configuration file, in place of the default one.
    pub config_file: Option<String>,
}

} // verus!
