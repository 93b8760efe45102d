use vstd::prelude::*;

use crate::key_layout::{default_layout, get_key_from, key_named, Key, KeyLayout};
use crate::list::{index_after_next, index_after_previous, StatefulList};
use crate::record::{Feature, TrackerRecord};
use crate::rows::{
    feature_rows, flatten_features, lemma_rows_in_tree, row_in_tree, row_record, rows_match,
    FeatureRow,
};
use crate::status::opt_text;
use crate::text::{pop_char, push_char};
use crate::wizard::{
    feature_advanced, fresh_feature, fresh_requirement, requirement_advanced, FeatureCreate,
    FeatureStep, RequirementCreate, RequirementStep,
};

verus! {

/// The level of the hierarchy that the browser shows.
#[derive(Clone, Copy, Debug, PartialEq, Eq, Structural)]
pub enum Screen {
    Project,
    Release,
    Features,
    Feature,
}

/// The last place the user went to, kept from one run to the next.
#[derive(Clone, Debug)]
pub struct History {
    pub project: Option<String>,
    pub release: Option<String>,
    pub feature: Option<String>,
}

/// A key layout as the user writes it: each entry names a key.
#[derive(Clone, Debug)]
pub struct Layout {
    pub up: Option<String>,
    pub down: Option<String>,
    pub left: Option<String>,
    pub right: Option<String>,
    pub up_arrow: Option<String>,
    pub down_arrow: Option<String>,
    pub left_arrow: Option<String>,
    pub right_arrow: Option<String>,
    pub right_alt: Option<String>,
    pub escape: Option<String>,
    pub quit: Option<String>,
    pub search: Option<String>,
    pub create: Option<String>,
}

/// The overlay that takes the input ahead of navigation.
#[derive(Clone, Copy, Debug, PartialEq, Eq, Structural)]
pub enum Popup {
    /// The creation prompts.
    Text,
    Closed,
    Search,
}

/// The entries of the breadcrumb.
#[derive(Clone, Copy, Debug, PartialEq, Eq, Structural)]
pub enum HistoryField {
    Project,
    Release,
    Feature,
}

/// What a key asks of the browser.
#[derive(Clone, Copy, Debug, PartialEq, Eq, Structural)]
pub enum Command {
    Quit,
    Search,
    Create,
    Back,
    Enter,
    Down,
    Up,
    Other,
}

/// What the caller must do after an input was handled.
#[derive(Clone, Debug)]
pub enum AppAction {
    /// Nothing further.
    Stay,
    /// Leave the browser.
    Quit,
    /// Fetch the releases of this project, hand them to `load_releases`,
    /// and store the breadcrumb.
    LoadReleases(String),
    /// Fetch the features of this release, hand them to `load_features`,
    /// and store the breadcrumb.
    LoadFeatures(String),
    /// Store the breadcrumb.
    ShowFeature,
    /// Send this feature, then reload the features of its release.
    CreateFeature(FeatureCreate),
    /// Send this requirement for the feature `feature_ref`, then reload the
    /// features of release `release_id`.
    CreateRequirement { feature_ref: String, release_id: String, requirement: RequirementCreate },
}

/// The browser: the cached hierarchy, the level shown, the overlay and the
/// breadcrumb.
#[derive(Clone, Debug)]
pub struct App {
    pub layout: KeyLayout,
    /// The projects.
    pub items: StatefulList<TrackerRecord>,
    pub releases: StatefulList<TrackerRecord>,
    /// The features of the selected release, with their requirements.
    pub feature_tree: Vec<Feature>,
    /// The features and requirements laid out as rows.
    pub features: StatefulList<FeatureRow>,
    pub active_layer: Screen,
    /// The formatted view of the selected feature is still valid.
    pub detail_cached: bool,
    pub popup: Popup,
    /// The creation prompts are for a requirement, not a feature.
    pub creating_requirement: bool,
    pub text_box: String,
    pub text_box_title: String,
    pub new_feature: FeatureCreate,
    pub new_requirement: RequirementCreate,
    pub history: Option<History>,
    pub debug_txt: String,
}

/// The command that `key` gives under `layout`.
pub open spec fn command_for(layout: KeyLayout, key: Key) -> Command {
    if key == layout.quit {
        Command::Quit
    } else if key == layout.search {
        Command::Search
    } else if key == layout.create {
        Command::Create
    } else if key == layout.left || key == layout.left_arrow {
        Command::Back
    } else if key == layout.right || key == layout.right_arrow || key == layout.right_alt {
        Command::Enter
    } else if key == layout.down || key == layout.down_arrow {
        Command::Down
    } else if key == layout.up || key == layout.up_arrow {
        Command::Up
    } else {
        Command::Other
    }
}

/// The breadcrumb with one entry set.
pub open spec fn history_with(h: Option<History>, field: HistoryField, v: String) -> History {
    let base = match h {
        Some(x) => x,
        None => History { project: None, release: None, feature: None },
    };
    match field {
        HistoryField::Project => History { project: Some(v), ..base },
        HistoryField::Release => History { release: Some(v), ..base },
        HistoryField::Feature => History { feature: Some(v), ..base },
    }
}

/// The id of the feature that row `i` of the features list belongs to.
pub open spec fn row_feature_id(a: App, i: int) -> String {
    a.feature_tree@[a.features.items@[i].feature as int].record.id
}

/// `n` is `o` after a drill in, and `r` what the caller must do.
pub open spec fn drilled_in(o: App, n: App, r: AppAction) -> bool {
    match o.active_layer {
        Screen::Project => match o.items.selected {
            Some(i) => {
                let id = o.items.items@[i as int].id;
                &&& n == App {
                    active_layer: Screen::Release,
                    detail_cached: false,
                    history: Some(history_with(o.history, HistoryField::Project, id)),
                    ..o
                }
                &&& r == AppAction::LoadReleases(id)
            },
            None => n == o && r == AppAction::Stay,
        },
        Screen::Release => match o.releases.selected {
            Some(i) => {
                let id = o.releases.items@[i as int].id;
                &&& n == App {
                    active_layer: Screen::Features,
                    detail_cached: false,
                    history: Some(history_with(o.history, HistoryField::Release, id)),
                    ..o
                }
                &&& r == AppAction::LoadFeatures(id)
            },
            None => n == o && r == AppAction::Stay,
        },
        Screen::Features => match o.features.selected {
            Some(i) => {
                &&& n == App {
                    active_layer: Screen::Feature,
                    detail_cached: false,
                    history: Some(
                        history_with(o.history, HistoryField::Feature, row_feature_id(o, i as int)),
                    ),
                    ..o
                }
                &&& r == AppAction::ShowFeature
            },
            None => n == o && r == AppAction::Stay,
        },
        Screen::Feature => n == o && r == AppAction::Stay,
    }
}

/// `n` is `o` after a drill out.
pub open spec fn drilled_out(o: App, n: App) -> bool {
    match o.active_layer {
        Screen::Project => n == o,
        Screen::Release => n == App {
            releases: StatefulList { selected: None, ..o.releases },
            active_layer: Screen::Project,
            detail_cached: false,
            ..o
        },
        Screen::Features => n == App {
            features: StatefulList { selected: None, ..o.features },
            active_layer: Screen::Release,
            detail_cached: false,
            ..o
        },
        Screen::Feature => n == App { active_layer: Screen::Features, detail_cached: false, ..o },
    }
}

/// `n` is `o` after the cursor of the active level moved one down
/// (`down`) or up; the feature view moves through the features list.
pub open spec fn moved(o: App, n: App, down: bool) -> bool {
    match o.active_layer {
        Screen::Project => n == App {
            items: StatefulList {
                selected: if down {
                    index_after_next(o.items.selected, o.items.items@.len())
                } else {
                    index_after_previous(o.items.selected, o.items.items@.len())
                },
                ..o.items
            },
            detail_cached: false,
            ..o
        },
        Screen::Release => n == App {
            releases: StatefulList {
                selected: if down {
                    index_after_next(o.releases.selected, o.releases.items@.len())
                } else {
                    index_after_previous(o.releases.selected, o.releases.items@.len())
                },
                ..o.releases
            },
            detail_cached: false,
            ..o
        },
        _ => n == App {
            features: StatefulList {
                selected: if down {
                    index_after_next(o.features.selected, o.features.items@.len())
                } else {
                    index_after_previous(o.features.selected, o.features.items@.len())
                },
                ..o.features
            },
            detail_cached: false,
            ..o
        },
    }
}

/// `n` is `o` with the creation prompts opened: for a requirement in the
/// feature view, else for a feature where a release is selected; else
/// nothing changes.
pub open spec fn opened_create(o: App, n: App) -> bool {
    if o.active_layer == Screen::Feature {
        &&& n == App { popup: Popup::Text, creating_requirement: true, text_box_title: n.text_box_title, ..o }
        &&& n.text_box_title@ == "Requirement Name"@
    } else if o.releases.selected.is_some() {
        &&& n == App { popup: Popup::Text, creating_requirement: false, text_box_title: n.text_box_title, ..o }
        &&& n.text_box_title@ == "Feature Name"@
    } else {
        n == o
    }
}

/// `n` is `o` after `cmd`, and `r` what the caller must do.
pub open spec fn commanded(o: App, n: App, cmd: Command, r: AppAction) -> bool {
    match cmd {
        Command::Quit => n == o && r == AppAction::Quit,
        Command::Search => n == App { popup: Popup::Search, ..o } && r == AppAction::Stay,
        Command::Create => opened_create(o, n) && r == AppAction::Stay,
        Command::Back => drilled_out(o, n) && r == AppAction::Stay,
        Command::Enter => drilled_in(o, n, r),
        Command::Down => moved(o, n, true) && r == AppAction::Stay,
        Command::Up => moved(o, n, false) && r == AppAction::Stay,
        Command::Other => n == o && r == AppAction::Stay,
    }
}

/// The list's selected item has id `id`.
pub open spec fn selected_has_id(list: StatefulList<TrackerRecord>, id: Seq<char>) -> bool {
    match list.selected {
        Some(i) => list.items@[i as int].id@ == id,
        None => false,
    }
}

/// Whether the list's selected item has id `id`.
fn selected_is(list: &StatefulList<TrackerRecord>, id: &str) -> (r: bool)
    requires
        list.wf(),
    ensures
        r == selected_has_id(*list, id@),
{
    match list.selected {
        Some(i) => crate::text::same_text(list.items[i].id.as_str(), id),
        None => false,
    }
}

/// The text box after `key`: a character is added, a backspace takes the
/// last one off; other keys leave it.
pub open spec fn edited(buffer: Seq<char>, key: Key) -> Seq<char> {
    match key {
        Key::Backspace => if buffer.len() > 0 {
            buffer.drop_last()
        } else {
            buffer
        },
        Key::Char(c) => buffer.push(c),
        _ => buffer,
    }
}

/// `n` is `o` with only its text box edited by `key`.
pub open spec fn typed(o: App, n: App, key: Key) -> bool {
    &&& n == App { text_box: n.text_box, ..o }
    &&& n.text_box@ == edited(o.text_box@, key)
}

/// `n` is `o` after `key` in the search box: escape empties it and closes
/// it, enter does nothing here, other keys edit it.
pub open spec fn searched(o: App, n: App, key: Key) -> bool {
    if key == o.layout.escape {
        &&& n == App { popup: Popup::Closed, text_box: n.text_box, ..o }
        &&& n.text_box@.len() == 0
    } else if key == Key::Char('\n') {
        n == o
    } else {
        typed(o, n, key)
    }
}

/// `n` is `o` with the creation prompts closed and a fresh feature at the
/// first prompt.
pub open spec fn feature_prompts_reset(o: App, n: App) -> bool {
    &&& n == App {
        popup: Popup::Closed,
        text_box: n.text_box,
        text_box_title: n.text_box_title,
        new_feature: n.new_feature,
        ..o
    }
    &&& n.text_box@.len() == 0
    &&& n.text_box_title@ == "Feature Name"@
    &&& fresh_feature(n.new_feature)
}

/// `n` is `o` with the creation prompts closed and a fresh requirement at
/// the first prompt.
pub open spec fn requirement_prompts_reset(o: App, n: App) -> bool {
    &&& n == App {
        popup: Popup::Closed,
        text_box: n.text_box,
        text_box_title: n.text_box_title,
        new_requirement: n.new_requirement,
        ..o
    }
    &&& n.text_box@.len() == 0
    &&& n.text_box_title@ == "Requirement Name"@
    &&& fresh_requirement(n.new_requirement)
}

/// `n` is `o` after `key` in the feature creation prompts, and `r` what the
/// caller must do. Escape drops the feature. Enter commits the text box to
/// the current prompt and shows the next; after the last prompt the feature
/// goes out for the selected release (dropped where none is selected) and
/// the prompts close.
pub open spec fn feature_prompted(o: App, n: App, key: Key, r: AppAction) -> bool {
    if key == o.layout.escape {
        feature_prompts_reset(o, n) && r == AppAction::Stay
    } else if key == Key::Char('\n') {
        if o.new_feature.step == FeatureStep::Name || o.new_feature.step == FeatureStep::Description {
            &&& n == App {
                new_feature: n.new_feature,
                text_box: n.text_box,
                text_box_title: n.text_box_title,
                ..o
            }
            &&& feature_advanced(o.new_feature, n.new_feature, o.text_box@, Some(n.text_box_title@))
            &&& n.text_box@.len() == 0
            &&& r == AppAction::Stay
        } else {
            &&& feature_prompts_reset(o, n)
            &&& match o.releases.selected {
                Some(i) => match r {
                    AppAction::CreateFeature(f) => {
                        &&& f.release_id == o.releases.items@[i as int].id
                        &&& feature_advanced(
                            o.new_feature,
                            FeatureCreate { release_id: o.new_feature.release_id, ..f },
                            o.text_box@,
                            None,
                        )
                    },
                    _ => false,
                },
                None => r == AppAction::Stay,
            }
        }
    } else {
        typed(o, n, key) && r == AppAction::Stay
    }
}

/// The reference number of the feature that the selected row belongs to.
pub open spec fn selected_feature_ref(a: App) -> Option<String> {
    match a.features.selected {
        Some(i) => a.feature_tree@[a.features.items@[i as int].feature as int].record.reference_num,
        None => None,
    }
}

/// `n` is `o` after `key` in the requirement creation prompts, and `r` what
/// the caller must do. Escape drops the requirement. Enter commits the text
/// box to the current prompt and shows the next; after the last prompt the
/// requirement goes out for the selected feature, with the selected release
/// to reload (dropped where either is missing), and the prompts close.
pub open spec fn requirement_prompted(o: App, n: App, key: Key, r: AppAction) -> bool {
    if key == o.layout.escape {
        requirement_prompts_reset(o, n) && r == AppAction::Stay
    } else if key == Key::Char('\n') {
        if o.new_requirement.step == RequirementStep::Name {
            &&& n == App {
                new_requirement: n.new_requirement,
                text_box: n.text_box,
                text_box_title: n.text_box_title,
                ..o
            }
            &&& requirement_advanced(
                o.new_requirement,
                n.new_requirement,
                o.text_box@,
                Some(n.text_box_title@),
            )
            &&& n.text_box@.len() == 0
            &&& r == AppAction::Stay
        } else {
            &&& requirement_prompts_reset(o, n)
            &&& match (o.releases.selected, selected_feature_ref(o)) {
                (Some(i), Some(fref)) => match r {
                    AppAction::CreateRequirement { feature_ref, release_id, requirement } => {
                        &&& feature_ref == fref
                        &&& release_id == o.releases.items@[i as int].id
                        &&& requirement_advanced(o.new_requirement, requirement, o.text_box@, None)
                    },
                    _ => false,
                },
                _ => r == AppAction::Stay,
            }
        }
    } else {
        typed(o, n, key) && r == AppAction::Stay
    }
}

/// `n` is `o` after `key`, and `r` what the caller must do: an open
/// overlay takes the key first; else it goes to navigation.
pub open spec fn handled(o: App, n: App, key: Key, r: AppAction) -> bool {
    match o.popup {
        Popup::Search => searched(o, n, key) && r == AppAction::Stay,
        Popup::Text => if o.creating_requirement {
            requirement_prompted(o, n, key, r)
        } else {
            feature_prompted(o, n, key, r)
        },
        Popup::Closed => commanded(o, n, command_for(o.layout, key), r),
    }
}

/// The first index from `i` on whose record has id `id`.
pub open spec fn position_from(items: Seq<TrackerRecord>, id: Seq<char>, i: int) -> Option<int>
    decreases items.len() - i,
{
    if i < 0 || i >= items.len() {
        None
    } else if items[i].id@ == id {
        Some(i)
    } else {
        position_from(items, id, i + 1)
    }
}

/// The first row from `k` on that belongs to the feature with id `id`.
pub open spec fn row_position_from(a: App, id: Seq<char>, k: int) -> Option<int>
    decreases a.features.items@.len() - k,
{
    if k < 0 || k >= a.features.items@.len() {
        None
    } else if row_feature_id(a, k)@ == id {
        Some(k)
    } else {
        row_position_from(a, id, k + 1)
    }
}

/// The stored entry of the breadcrumb, if any.
pub open spec fn crumb_entry(h: Option<History>, field: HistoryField) -> Option<String> {
    match h {
        Some(x) => match field {
            HistoryField::Project => x.project,
            HistoryField::Release => x.release,
            HistoryField::Feature => x.feature,
        },
        None => None,
    }
}

/// The key that a layout entry gives, or `current` where the entry is absent.
pub open spec fn key_setting(setting: Option<String>, current: Key) -> Key {
    match setting {
        Some(s) => key_named(s@),
        None => current,
    }
}

/// Reads the key of one layout entry.
fn key_or(setting: &Option<String>, current: Key) -> (r: Key)
    ensures
        r == key_setting(*setting, current),
{
    match setting {
        Some(s) => get_key_from(s.as_str()),
        None => current,
    }
}

/// The index of the first record with id `id`.
fn find_record(items: &Vec<TrackerRecord>, id: &str) -> (r: Option<usize>)
    ensures
        match r {
            Some(k) => position_from(items@, id@, 0) == Some(k as int) && k < items@.len(),
            None => position_from(items@, id@, 0).is_none(),
        },
{
    let mut i: usize = 0;
    while i < items.len()
        invariant
            i <= items@.len(),
            position_from(items@, id@, 0) == position_from(items@, id@, i as int),
        decreases items.len() - i,
    {
        if crate::text::same_text(items[i].id.as_str(), id) {
            return Some(i);
        }
        i = i + 1;
    }
    None
}

/// The title of the view of the selected row: `Feature` or `Requirement`,
/// then the record's reference number.
pub open spec fn detail_title_for(a: App) -> Option<Seq<char>> {
    match a.features.selected {
        Some(i) => {
            let row = a.features.items@[i as int].pos();
            let reference = match row_record(a.feature_tree@, row).reference_num {
                Some(x) => x@,
                None => Seq::empty(),
            };
            Some(
                if row.1.is_some() {
                    "Requirement "@ + reference
                } else {
                    "Feature "@ + reference
                },
            )
        },
        None => None,
    }
}

/// Reads which command a key gives under a layout.
pub fn command_of(layout: &KeyLayout, key: Key) -> (r: Command)
    ensures
        r == command_for(*layout, key),
{
    if key == layout.quit {
        Command::Quit
    } else if key == layout.search {
        Command::Search
    } else if key == layout.create {
        Command::Create
    } else if key == layout.left || key == layout.left_arrow {
        Command::Back
    } else if key == layout.right || key == layout.right_arrow || key == layout.right_alt {
        Command::Enter
    } else if key == layout.down || key == layout.down_arrow {
        Command::Down
    } else if key == layout.up || key == layout.up_arrow {
        Command::Up
    } else {
        Command::Other
    }
}

impl App {
    /// The lists' selections are in range, the rows are those of the
    /// feature tree, and the feature view has a row to show.
    pub open spec fn wf(&self) -> bool {
        &&& self.items.wf()
        &&& self.releases.wf()
        &&& self.features.wf()
        &&& rows_match(self.feature_tree@, self.features.items@)
        &&& (self.active_layer == Screen::Feature ==> self.features.selected.is_some())
    }

    /// An empty browser at the project level, with the default keys.
    pub fn new() -> (r: App)
        ensures
            r.wf(),
            r.layout == default_layout(),
            r.active_layer == Screen::Project,
            r.popup == Popup::Closed,
            !r.creating_requirement,
            !r.detail_cached,
            r.items.items@.len() == 0 && r.items.selected.is_none(),
            r.releases.items@.len() == 0 && r.releases.selected.is_none(),
            r.feature_tree@.len() == 0,
            r.features.items@.len() == 0 && r.features.selected.is_none(),
            r.history.is_none(),
            r.text_box@.len() == 0,
            r.text_box_title@ == "Feature Name"@,
            fresh_feature(r.new_feature),
            fresh_requirement(r.new_requirement),
    {
        let tree: Vec<Feature> = Vec::new();
        let rows = flatten_features(&tree);
        App {
            layout: KeyLayout::default(),
            items: StatefulList::with_items(Vec::new()),
            releases: StatefulList::with_items(Vec::new()),
            feature_tree: tree,
            features: StatefulList::with_items(rows),
            active_layer: Screen::Project,
            detail_cached: false,
            popup: Popup::Closed,
            creating_requirement: false,
            text_box: String::new(),
            text_box_title: String::from_str("Feature Name"),
            new_feature: FeatureCreate::new(),
            new_requirement: RequirementCreate::new(),
            history: None,
            debug_txt: String::new(),
        }
    }

    /// Sets one entry of the breadcrumb; the caller stores it.
    pub fn write_history(&mut self, field: HistoryField, value: String)
        ensures
            *final(self) == (App {
                history: Some(history_with(old(self).history, field, value)),
                ..*old(self)
            }),
    {
        match &mut self.history {
            Some(h) => match field {
                HistoryField::Project => {
                    h.project = Some(value);
                },
                HistoryField::Release => {
                    h.release = Some(value);
                },
                HistoryField::Feature => {
                    h.feature = Some(value);
                },
            },
            None => {
                let base = History { project: None, release: None, feature: None };
                self.history = Some(
                    match field {
                        HistoryField::Project => History { project: Some(value), ..base },
                        HistoryField::Release => History { release: Some(value), ..base },
                        HistoryField::Feature => History { feature: Some(value), ..base },
                    },
                );
            },
        }
    }

    /// Opens the next level down, where the active level has a selection:
    /// a project's releases, a release's features, or the selected feature.
    /// Without a selection, and in the feature view, nothing changes.
    pub fn drill_in(&mut self) -> (r: AppAction)
        requires
            old(self).wf(),
        ensures
            final(self).wf(),
            drilled_in(*old(self), *final(self), r),
    {
        match self.active_layer {
            Screen::Project => match self.items.selected {
                Some(i) => {
                    let id = self.items.items[i].id.clone();
                    self.active_layer = Screen::Release;
                    self.detail_cached = false;
                    self.write_history(HistoryField::Project, id.clone());
                    AppAction::LoadReleases(id)
                },
                None => AppAction::Stay,
            },
            Screen::Release => match self.releases.selected {
                Some(i) => {
                    let id = self.releases.items[i].id.clone();
                    self.active_layer = Screen::Features;
                    self.detail_cached = false;
                    self.write_history(HistoryField::Release, id.clone());
                    AppAction::LoadFeatures(id)
                },
                None => AppAction::Stay,
            },
            Screen::Features => match self.features.selected {
                Some(i) => {
                    proof {
                        lemma_rows_in_tree(self.feature_tree@);
                        assert(self.features.items@[i as int].pos() == feature_rows(self.feature_tree@)[i as int]);
                        assert(row_in_tree(self.feature_tree@, feature_rows(self.feature_tree@)[i as int]));
                    }
                    let f = self.features.items[i].feature;
                    let id = self.feature_tree[f].record.id.clone();
                    self.active_layer = Screen::Feature;
                    self.detail_cached = false;
                    self.write_history(HistoryField::Feature, id);
                    AppAction::ShowFeature
                },
                None => AppAction::Stay,
            },
            Screen::Feature => AppAction::Stay,
        }
    }

    /// Goes one level up, clearing the selection of the level left behind;
    /// the feature view returns to the features list as it was. At the
    /// project level nothing changes.
    pub fn drill_out(&mut self)
        requires
            old(self).wf(),
        ensures
            final(self).wf(),
            drilled_out(*old(self), *final(self)),
    {
        match self.active_layer {
            Screen::Project => {},
            Screen::Release => {
                self.releases.unselect();
                self.active_layer = Screen::Project;
                self.detail_cached = false;
            },
            Screen::Features => {
                self.features.unselect();
                self.active_layer = Screen::Release;
                self.detail_cached = false;
            },
            Screen::Feature => {
                self.active_layer = Screen::Features;
                self.detail_cached = false;
            },
        }
    }

    /// Moves the cursor of the active level one down or up.
    pub fn move_cursor(&mut self, down: bool)
        requires
            old(self).wf(),
        ensures
            final(self).wf(),
            moved(*old(self), *final(self), down),
    {
        self.detail_cached = false;
        match self.active_layer {
            Screen::Project => {
                if down {
                    self.items.next();
                } else {
                    self.items.previous();
                }
            },
            Screen::Release => {
                if down {
                    self.releases.next();
                } else {
                    self.releases.previous();
                }
            },
            _ => {
                if down {
                    self.features.next();
                } else {
                    self.features.previous();
                }
            },
        }
    }

    /// Opens the creation prompts: for a requirement of the feature on
    /// view, or for a feature of the selected release.
    pub fn open_create(&mut self)
        ensures
            opened_create(*old(self), *final(self)),
    {
        if self.active_layer == Screen::Feature {
            self.text_box_title = String::from_str("Requirement Name");
            self.creating_requirement = true;
            self.popup = Popup::Text;
        } else if self.releases.selected.is_some() {
            self.text_box_title = String::from_str("Feature Name");
            self.creating_requirement = false;
            self.popup = Popup::Text;
        }
    }

    /// Carries out one navigation command.
    pub fn handle_command(&mut self, cmd: Command) -> (r: AppAction)
        requires
            old(self).wf(),
        ensures
            final(self).wf(),
            commanded(*old(self), *final(self), cmd, r),
    {
        match cmd {
            Command::Quit => AppAction::Quit,
            Command::Search => {
                self.popup = Popup::Search;
                AppAction::Stay
            },
            Command::Create => {
                self.open_create();
                AppAction::Stay
            },
            Command::Back => {
                self.drill_out();
                AppAction::Stay
            },
            Command::Enter => self.drill_in(),
            Command::Down => {
                self.move_cursor(true);
                AppAction::Stay
            },
            Command::Up => {
                self.move_cursor(false);
                AppAction::Stay
            },
            Command::Other => AppAction::Stay,
        }
    }

    /// Handles a key while no overlay is open.
    pub fn handle_nav(&mut self, key: Key) -> (r: AppAction)
        requires
            old(self).wf(),
        ensures
            final(self).wf(),
            commanded(*old(self), *final(self), command_for(old(self).layout, key), r),
    {
        let cmd = command_of(&self.layout, key);
        self.handle_command(cmd)
    }

    /// Takes the releases fetched for `project_id`, where that project is
    /// still the selected one; a late answer for another project is dropped.
    pub fn load_releases(&mut self, project_id: &str, releases: Vec<TrackerRecord>) -> (r: bool)
        requires
            old(self).wf(),
        ensures
            final(self).wf(),
            r == selected_has_id(old(self).items, project_id@),
            r ==> *final(self) == (App {
                releases: StatefulList { items: releases, selected: None },
                detail_cached: false,
                ..*old(self)
            }),
            !r ==> *final(self) == *old(self),
    {
        if selected_is(&self.items, project_id) {
            self.releases = StatefulList::with_items(releases);
            self.detail_cached = false;
            true
        } else {
            false
        }
    }

    /// Takes the features fetched for `release_id`, where that release is
    /// still the selected one; a late answer for another release is dropped.
    /// The rows start with nothing selected, so the feature view returns to
    /// the features list.
    pub fn load_features(&mut self, release_id: &str, features: Vec<Feature>) -> (r: bool)
        requires
            old(self).wf(),
        ensures
            final(self).wf(),
            r == selected_has_id(old(self).releases, release_id@),
            r ==> {
                &&& *final(self) == (App {
                    feature_tree: features,
                    features: final(self).features,
                    active_layer: if old(self).active_layer == Screen::Feature {
                        Screen::Features
                    } else {
                        old(self).active_layer
                    },
                    detail_cached: false,
                    ..*old(self)
                })
                &&& final(self).features.selected.is_none()
            },
            !r ==> *final(self) == *old(self),
    {
        if selected_is(&self.releases, release_id) {
            let rows = flatten_features(&features);
            self.feature_tree = features;
            self.features = StatefulList::with_items(rows);
            if self.active_layer == Screen::Feature {
                self.active_layer = Screen::Features;
            }
            self.detail_cached = false;
            true
        } else {
            false
        }
    }

    /// Edits the text box by one key.
    pub fn edit_text_box(&mut self, key: Key)
        ensures
            typed(*old(self), *final(self), key),
    {
        match key {
            Key::Backspace => {
                pop_char(&mut self.text_box);
            },
            Key::Char(c) => {
                push_char(&mut self.text_box, c);
            },
            _ => {},
        }
    }

    /// Handles a key in the search box.
    pub fn handle_search_popup(&mut self, key: Key)
        ensures
            searched(*old(self), *final(self), key),
    {
        if key == self.layout.escape {
            self.popup = Popup::Closed;
            self.text_box = String::new();
        } else if key == Key::Char('\n') {
        } else {
            self.edit_text_box(key);
        }
    }

    /// Handles a key in the feature creation prompts.
    pub fn handle_create_popup(&mut self, key: Key) -> (r: AppAction)
        requires
            old(self).wf(),
        ensures
            final(self).wf(),
            feature_prompted(*old(self), *final(self), key, r),
    {
        if key == self.layout.escape {
            self.popup = Popup::Closed;
            self.new_feature = FeatureCreate::new();
            self.text_box_title = String::from_str("Feature Name");
            self.text_box = String::new();
            AppAction::Stay
        } else if key == Key::Char('\n') {
            let data = self.text_box.clone();
            self.text_box = String::new();
            match self.new_feature.advance(data) {
                Some(title) => {
                    self.text_box_title = String::from_str(title);
                    AppAction::Stay
                },
                None => {
                    let mut done = FeatureCreate::new();
                    std::mem::swap(&mut done, &mut self.new_feature);
                    self.popup = Popup::Closed;
                    self.text_box_title = String::from_str("Feature Name");
                    match self.releases.selected {
                        Some(i) => {
                            done.release_id = self.releases.items[i].id.clone();
                            AppAction::CreateFeature(done)
                        },
                        None => AppAction::Stay,
                    }
                },
            }
        } else {
            self.edit_text_box(key);
            AppAction::Stay
        }
    }

    /// The reference number of the feature that the selected row belongs to.
    pub fn selected_feature_reference(&self) -> (r: Option<String>)
        requires
            self.wf(),
        ensures
            r == selected_feature_ref(*self),
    {
        match self.features.selected {
            Some(i) => {
                proof {
                    lemma_rows_in_tree(self.feature_tree@);
                    assert(self.features.items@[i as int].pos() == feature_rows(self.feature_tree@)[i as int]);
                    assert(row_in_tree(self.feature_tree@, feature_rows(self.feature_tree@)[i as int]));
                }
                let f = self.features.items[i].feature;
                match &self.feature_tree[f].record.reference_num {
                    Some(x) => Some(x.clone()),
                    None => None,
                }
            },
            None => None,
        }
    }

    /// Handles a key in the requirement creation prompts.
    pub fn handle_create_requirement_popup(&mut self, key: Key) -> (r: AppAction)
        requires
            old(self).wf(),
        ensures
            final(self).wf(),
            requirement_prompted(*old(self), *final(self), key, r),
    {
        if key == self.layout.escape {
            self.popup = Popup::Closed;
            self.new_requirement = RequirementCreate::new();
            self.text_box_title = String::from_str("Requirement Name");
            self.text_box = String::new();
            AppAction::Stay
        } else if key == Key::Char('\n') {
            let data = self.text_box.clone();
            self.text_box = String::new();
            match self.new_requirement.advance(data) {
                Some(title) => {
                    self.text_box_title = String::from_str(title);
                    AppAction::Stay
                },
                None => {
                    let mut done = RequirementCreate::new();
                    std::mem::swap(&mut done, &mut self.new_requirement);
                    self.popup = Popup::Closed;
                    self.text_box_title = String::from_str("Requirement Name");
                    let fref = self.selected_feature_reference();
                    match (self.releases.selected, fref) {
                        (Some(i), Some(feature_ref)) => AppAction::CreateRequirement {
                            feature_ref,
                            release_id: self.releases.items[i].id.clone(),
                            requirement: done,
                        },
                        _ => AppAction::Stay,
                    }
                },
            }
        } else {
            self.edit_text_box(key);
            AppAction::Stay
        }
    }

    /// Handles one key: the open overlay, if any, takes it; else navigation.
    pub fn handle_event(&mut self, key: Key) -> (r: AppAction)
        requires
            old(self).wf(),
        ensures
            final(self).wf(),
            handled(*old(self), *final(self), key, r),
    {
        match self.popup {
            Popup::Search => {
                self.handle_search_popup(key);
                AppAction::Stay
            },
            Popup::Text => {
                if self.creating_requirement {
                    self.handle_create_requirement_popup(key)
                } else {
                    self.handle_create_popup(key)
                }
            },
            Popup::Closed => self.handle_nav(key),
        }
    }

    /// Sets every key that `layout` names; the others stay.
    pub fn load_layout(&mut self, layout: &Layout)
        ensures
            *final(self) == (App { layout: final(self).layout, ..*old(self) }),
            final(self).layout == (KeyLayout {
                up: key_setting(layout.up, old(self).layout.up),
                down: key_setting(layout.down, old(self).layout.down),
                left: key_setting(layout.left, old(self).layout.left),
                right: key_setting(layout.right, old(self).layout.right),
                up_arrow: key_setting(layout.up_arrow, old(self).layout.up_arrow),
                down_arrow: key_setting(layout.down_arrow, old(self).layout.down_arrow),
                left_arrow: key_setting(layout.left_arrow, old(self).layout.left_arrow),
                right_arrow: key_setting(layout.right_arrow, old(self).layout.right_arrow),
                right_alt: key_setting(layout.right_alt, old(self).layout.right_alt),
                escape: key_setting(layout.escape, old(self).layout.escape),
                quit: key_setting(layout.quit, old(self).layout.quit),
                search: key_setting(layout.search, old(self).layout.search),
                create: key_setting(layout.create, old(self).layout.create),
            }),
    {
        let k = self.layout;
        self.layout = KeyLayout {
            up: key_or(&layout.up, k.up),
            down: key_or(&layout.down, k.down),
            left: key_or(&layout.left, k.left),
            right: key_or(&layout.right, k.right),
            up_arrow: key_or(&layout.up_arrow, k.up_arrow),
            down_arrow: key_or(&layout.down_arrow, k.down_arrow),
            left_arrow: key_or(&layout.left_arrow, k.left_arrow),
            right_arrow: key_or(&layout.right_arrow, k.right_arrow),
            right_alt: key_or(&layout.right_alt, k.right_alt),
            escape: key_or(&layout.escape, k.escape),
            quit: key_or(&layout.quit, k.quit),
            search: key_or(&layout.search, k.search),
            create: key_or(&layout.create, k.create),
        };
    }

    /// Starts restoring a stored breadcrumb, which becomes the current one.
    /// Where its project is in the list, that project is selected and the
    /// release level opens: the id returned is the project whose releases
    /// must be fetched. Else restoring stops here.
    pub fn restore_project(&mut self, crumb: History) -> (r: Option<String>)
        requires
            old(self).wf(),
        ensures
            final(self).wf(),
            final(self).history == Some(crumb),
            match crumb.project {
                Some(p) => match position_from(old(self).items.items@, p@, 0) {
                    Some(k) => {
                        &&& *final(self) == (App {
                            items: StatefulList { selected: Some(k as usize), ..old(self).items },
                            active_layer: Screen::Release,
                            detail_cached: false,
                            history: Some(crumb),
                            ..*old(self)
                        })
                        &&& r == Some(old(self).items.items@[k].id)
                    },
                    None => *final(self) == (App { history: Some(crumb), ..*old(self) }) && r.is_none(),
                },
                None => *final(self) == (App { history: Some(crumb), ..*old(self) }) && r.is_none(),
            },
    {
        let found = match &crumb.project {
            Some(p) => find_record(&self.items.items, p.as_str()),
            None => None,
        };
        self.history = Some(crumb);
        match found {
            Some(k) => {
                self.items.select(Some(k));
                self.active_layer = Screen::Release;
                self.detail_cached = false;
                Some(self.items.items[k].id.clone())
            },
            None => None,
        }
    }

    /// Goes on restoring the breadcrumb once the releases are in: where its
    /// release is among them, that release is selected and the features
    /// level opens; the id returned is the release whose features must be
    /// fetched. Else restoring stops at the release level and nothing is
    /// fetched.
    pub fn restore_release(&mut self) -> (r: Option<String>)
        requires
            old(self).wf(),
        ensures
            final(self).wf(),
            match crumb_entry(old(self).history, HistoryField::Release) {
                Some(rel) => match position_from(old(self).releases.items@, rel@, 0) {
                    Some(k) => if old(self).active_layer == Screen::Release {
                        &&& *final(self) == (App {
                            releases: StatefulList { selected: Some(k as usize), ..old(self).releases },
                            active_layer: Screen::Features,
                            detail_cached: false,
                            ..*old(self)
                        })
                        &&& r == Some(old(self).releases.items@[k].id)
                    } else {
                        *final(self) == *old(self) && r.is_none()
                    },
                    None => *final(self) == *old(self) && r.is_none(),
                },
                None => *final(self) == *old(self) && r.is_none(),
            },
    {
        if self.active_layer != Screen::Release {
            return None;
        }
        let found = match &self.history {
            Some(h) => match &h.release {
                Some(rel) => find_record(&self.releases.items, rel.as_str()),
                None => None,
            },
            None => None,
        };
        match found {
            Some(k) => {
                self.releases.select(Some(k));
                self.active_layer = Screen::Features;
                self.detail_cached = false;
                Some(self.releases.items[k].id.clone())
            },
            None => None,
        }
    }

    /// Ends restoring the breadcrumb once the features are in: where its
    /// feature is among them, that feature's row is selected.
    pub fn restore_feature(&mut self) -> (r: bool)
        requires
            old(self).wf(),
        ensures
            final(self).wf(),
            match crumb_entry(old(self).history, HistoryField::Feature) {
                Some(f) => match row_position_from(*old(self), f@, 0) {
                    Some(k) => if old(self).active_layer == Screen::Features {
                        &&& *final(self) == (App {
                            features: StatefulList { selected: Some(k as usize), ..old(self).features },
                            detail_cached: false,
                            ..*old(self)
                        })
                        &&& r
                    } else {
                        *final(self) == *old(self) && !r
                    },
                    None => *final(self) == *old(self) && !r,
                },
                None => *final(self) == *old(self) && !r,
            },
    {
        if self.active_layer != Screen::Features {
            return false;
        }
        let wanted = match &self.history {
            Some(h) => match &h.feature {
                Some(f) => Some(f.clone()),
                None => None,
            },
            None => None,
        };
        match wanted {
            Some(f) => match self.find_feature_row(f.as_str()) {
                Some(k) => {
                    self.features.select(Some(k));
                    self.detail_cached = false;
                    true
                },
                None => false,
            },
            None => false,
        }
    }

    /// The first row that belongs to the feature with id `id`.
    pub fn find_feature_row(&self, id: &str) -> (r: Option<usize>)
        requires
            self.wf(),
        ensures
            match r {
                Some(k) => row_position_from(*self, id@, 0) == Some(k as int) && k < self.features.items@.len(),
                None => row_position_from(*self, id@, 0).is_none(),
            },
    {
        proof {
            lemma_rows_in_tree(self.feature_tree@);
        }
        let mut k: usize = 0;
        while k < self.features.items.len()
            invariant
                self.wf(),
                k <= self.features.items@.len(),
                row_position_from(*self, id@, 0) == row_position_from(*self, id@, k as int),
                forall|j: int|
                    0 <= j < feature_rows(self.feature_tree@).len() ==> row_in_tree(
                        self.feature_tree@,
                        #[trigger] feature_rows(self.feature_tree@)[j],
                    ),
            decreases self.features.items.len() - k,
        {
            assert(self.features.items@[k as int].pos() == feature_rows(self.feature_tree@)[k as int]);
            let f = self.features.items[k].feature;
            if crate::text::same_text(self.feature_tree[f].record.id.as_str(), id) {
                return Some(k);
            }
            k = k + 1;
        }
        None
    }

    /// The record that the selected row shows: a feature, or one of its
    /// requirements.
    pub fn selected_record(&self) -> (r: Option<&TrackerRecord>)
        requires
            self.wf(),
        ensures
            match self.features.selected {
                Some(i) => r == Some(&row_record(self.feature_tree@, self.features.items@[i as int].pos())),
                None => r.is_none(),
            },
    {
        match self.features.selected {
            Some(i) => {
                proof {
                    lemma_rows_in_tree(self.feature_tree@);
                    assert(self.features.items@[i as int].pos() == feature_rows(self.feature_tree@)[i as int]);
                    assert(row_in_tree(self.feature_tree@, feature_rows(self.feature_tree@)[i as int]));
                }
                let row = &self.features.items[i];
                match row.requirement {
                    Some(j) => Some(&self.feature_tree[row.feature].requirements[j]),
                    None => Some(&self.feature_tree[row.feature].record),
                }
            },
            None => None,
        }
    }

    /// The title of the view of the selected row.
    pub fn detail_title(&self) -> (r: Option<String>)
        requires
            self.wf(),
        ensures
            opt_text(r) == detail_title_for(*self),
    {
        match self.features.selected {
            Some(i) => {
                let record = match self.selected_record() {
                    Some(x) => x,
                    None => {
                        return None;
                    },
                };
                let head = if self.features.items[i].requirement.is_some() {
                    String::from_str("Requirement ")
                } else {
                    String::from_str("Feature ")
                };
                let title = match &record.reference_num {
                    Some(x) => head.concat(x.as_str()),
                    None => head,
                };
                proof {
                    let row = self.features.items@[i as int].pos();
                    if record.reference_num.is_none() {
                        assert(title@ =~= head@ + Seq::<char>::empty());
                    }
                }
                Some(title)
            },
            None => None,
        }
    }

    /// Records that the view of the selected record was formatted anew.
    pub fn mark_detail_cached(&mut self)
        ensures
            *final(self) == (App { detail_cached: true, ..*old(self) }),
    {
        self.detail_cached = true;
    }
}

} // verus!
