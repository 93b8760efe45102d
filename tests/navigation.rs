use aha_workflow::app::{command_of, App, AppAction, Command, History, Layout, Popup, Screen};
use aha_workflow::key_layout::{get_key_from, Key, KeyLayout};
use aha_workflow::list::StatefulList;
use aha_workflow::record::{Feature, TrackerRecord, WorkflowStatus};
use aha_workflow::rows::{flatten_features, RowMarker};

fn rec(id: &str, name: &str) -> TrackerRecord {
    TrackerRecord {
        id: id.to_string(),
        name: name.to_string(),
        reference_num: Some(format!("REF-{}", id)),
        workflow_status: Some(WorkflowStatus { name: "Open".to_string(), color: "#ffffff".to_string() }),
        assigned_to_user: None,
        custom_fields: vec![],
        description: Some("<p>text</p>".to_string()),
        url: None,
    }
}

fn tree() -> Vec<Feature> {
    vec![
        Feature { record: rec("f1", "One"), requirements: vec![rec("r1", "Alpha"), rec("r2", "Beta")] },
        Feature { record: rec("f2", "Two"), requirements: vec![] },
        Feature { record: rec("f3", "Three"), requirements: vec![rec("r3", "Gamma")] },
    ]
}

fn is_stay(a: &AppAction) -> bool {
    matches!(a, AppAction::Stay)
}

/// A browser showing projects p1 and p2, nothing selected.
fn browser() -> App {
    let mut app = App::new();
    app.items = StatefulList::with_items(vec![rec("p1", "P one"), rec("p2", "P two")]);
    app
}

/// A browser at the features level of release v1 of project p1.
fn at_features() -> App {
    let mut app = browser();
    app.handle_event(Key::Down);
    app.handle_event(Key::Right);
    assert!(app.load_releases("p1", vec![rec("v1", "Release 1")]));
    app.handle_event(Key::Down);
    app.handle_event(Key::Right);
    assert!(app.load_features("v1", tree()));
    assert_eq!(app.active_layer, Screen::Features);
    app
}

#[test]
fn moves_on_empty_list_select_nothing() {
    let mut app = App::new();
    for key in [Key::Down, Key::Up, Key::Char('j'), Key::Char('k')] {
        assert!(is_stay(&app.handle_event(key)));
        assert_eq!(app.items.selected, None);
    }
}

#[test]
fn moves_are_clamped() {
    let mut app = browser();
    app.handle_event(Key::Up);
    assert_eq!(app.items.selected, Some(0));
    app.handle_event(Key::Up);
    assert_eq!(app.items.selected, Some(0));
    app.handle_event(Key::Down);
    app.handle_event(Key::Down);
    app.handle_event(Key::Down);
    assert_eq!(app.items.selected, Some(1));
}

#[test]
fn enter_without_selection_does_nothing() {
    let mut app = browser();
    assert!(is_stay(&app.handle_event(Key::Right)));
    assert_eq!(app.active_layer, Screen::Project);
    assert!(app.history.is_none());
}

#[test]
fn back_at_project_does_nothing() {
    let mut app = browser();
    app.handle_event(Key::Down);
    assert!(is_stay(&app.handle_event(Key::Left)));
    assert_eq!(app.active_layer, Screen::Project);
    assert_eq!(app.items.selected, Some(0));
}

#[test]
fn enter_opens_levels_and_records_breadcrumb() {
    let mut app = browser();
    app.handle_event(Key::Down);
    match app.handle_event(Key::Char('l')) {
        AppAction::LoadReleases(id) => assert_eq!(id, "p1"),
        _ => panic!("expected a release load"),
    }
    assert_eq!(app.active_layer, Screen::Release);
    assert_eq!(app.history.as_ref().unwrap().project.as_deref(), Some("p1"));
    app.load_releases("p1", vec![rec("v1", "Release 1")]);
    app.handle_event(Key::Down);
    match app.handle_event(Key::Char('\n')) {
        AppAction::LoadFeatures(id) => assert_eq!(id, "v1"),
        _ => panic!("expected a feature load"),
    }
    app.load_features("v1", tree());
    app.handle_event(Key::Down);
    app.handle_event(Key::Down);
    assert!(matches!(app.handle_event(Key::Right), AppAction::ShowFeature));
    assert_eq!(app.active_layer, Screen::Feature);
    assert_eq!(app.history.as_ref().unwrap().feature.as_deref(), Some("f1"));
    assert!(is_stay(&app.handle_event(Key::Right)));
    assert_eq!(app.active_layer, Screen::Feature);
}

#[test]
fn back_clears_the_level_left() {
    let mut app = at_features();
    app.handle_event(Key::Down);
    app.handle_event(Key::Right);
    app.handle_event(Key::Left);
    assert_eq!(app.active_layer, Screen::Features);
    assert_eq!(app.features.selected, Some(0));
    app.handle_event(Key::Left);
    assert_eq!(app.active_layer, Screen::Release);
    assert_eq!(app.features.selected, None);
    app.handle_event(Key::Char('h'));
    assert_eq!(app.active_layer, Screen::Project);
    assert_eq!(app.releases.selected, None);
}

#[test]
fn feature_view_moves_through_features_list() {
    let mut app = at_features();
    app.handle_event(Key::Down);
    app.handle_event(Key::Right);
    app.handle_event(Key::Down);
    assert_eq!(app.active_layer, Screen::Feature);
    assert_eq!(app.features.selected, Some(1));
    assert_eq!(app.selected_record().unwrap().id, "r1");
    assert_eq!(app.detail_title(), Some("Requirement REF-r1".to_string()));
}

#[test]
fn detail_is_invalidated_by_moves() {
    let mut app = at_features();
    app.mark_detail_cached();
    assert!(app.detail_cached);
    app.handle_event(Key::Down);
    assert!(!app.detail_cached);
}

#[test]
fn late_loads_for_other_ids_are_dropped() {
    let mut app = browser();
    app.handle_event(Key::Down);
    app.handle_event(Key::Right);
    assert!(!app.load_releases("p2", vec![rec("x", "X")]));
    assert!(app.releases.items.is_empty());
    assert!(!app.load_features("v1", tree()));
    assert!(app.feature_tree.is_empty());
}

#[test]
fn rows_list_features_then_their_requirements() {
    let rows = flatten_features(&tree());
    let labels: Vec<&str> = rows.iter().map(|r| r.label.as_str()).collect();
    assert_eq!(
        labels,
        vec!["One - Open", "├ Alpha - Open", "└ Beta - Open", "Two - Open", "Three - Open", "└ Gamma - Open"]
    );
    let pos: Vec<(usize, Option<usize>, RowMarker)> = rows.iter().map(|r| (r.feature, r.requirement, r.marker)).collect();
    assert_eq!(
        pos,
        vec![
            (0, None, RowMarker::Parent),
            (0, Some(0), RowMarker::Child),
            (0, Some(1), RowMarker::LastChild),
            (1, None, RowMarker::Parent),
            (2, None, RowMarker::Parent),
            (2, Some(0), RowMarker::LastChild),
        ]
    );
}

#[test]
fn restore_stops_when_release_is_missing() {
    let mut app = browser();
    let crumb = History {
        project: Some("p2".to_string()),
        release: Some("gone".to_string()),
        feature: Some("f1".to_string()),
    };
    assert_eq!(app.restore_project(crumb), Some("p2".to_string()));
    assert_eq!(app.items.selected, Some(1));
    assert_eq!(app.active_layer, Screen::Release);
    assert!(app.load_releases("p2", vec![rec("v1", "Release 1")]));
    assert_eq!(app.restore_release(), None);
    assert_eq!(app.active_layer, Screen::Release);
    assert_eq!(app.releases.selected, None);
    assert!(!app.restore_feature());
    assert!(app.feature_tree.is_empty());
}

#[test]
fn restore_reaches_the_stored_feature() {
    let mut app = browser();
    let crumb = History {
        project: Some("p1".to_string()),
        release: Some("v2".to_string()),
        feature: Some("f3".to_string()),
    };
    assert_eq!(app.restore_project(crumb), Some("p1".to_string()));
    app.load_releases("p1", vec![rec("v1", "Release 1"), rec("v2", "Release 2")]);
    assert_eq!(app.restore_release(), Some("v2".to_string()));
    assert_eq!(app.active_layer, Screen::Features);
    app.load_features("v2", tree());
    assert!(app.restore_feature());
    assert_eq!(app.features.selected, Some(4));
}

#[test]
fn restore_with_unknown_project_stays_at_projects() {
    let mut app = browser();
    let crumb = History { project: Some("nope".to_string()), release: None, feature: None };
    assert_eq!(app.restore_project(crumb), None);
    assert_eq!(app.active_layer, Screen::Project);
    assert_eq!(app.items.selected, None);
    assert!(app.history.is_some());
}

#[test]
fn search_box_edits_and_escape_closes() {
    let mut app = browser();
    app.handle_event(Key::Char('s'));
    assert_eq!(app.popup, Popup::Search);
    for c in ['a', 'b', 'c'] {
        app.handle_event(Key::Char(c));
    }
    app.handle_event(Key::Backspace);
    app.handle_event(Key::Char('\n'));
    assert_eq!(app.text_box, "ab");
    app.handle_event(Key::Char('q'));
    assert_eq!(app.text_box, "abq");
    app.handle_event(Key::Esc);
    assert_eq!(app.popup, Popup::Closed);
    assert_eq!(app.text_box, "");
}

fn type_line(app: &mut App, text: &str) -> AppAction {
    for c in text.chars() {
        app.handle_event(Key::Char(c));
    }
    app.handle_event(Key::Char('\n'))
}

#[test]
fn feature_prompts_send_the_feature() {
    let mut app = at_features();
    assert!(is_stay(&app.handle_event(Key::Char('c'))));
    assert_eq!(app.popup, Popup::Text);
    assert_eq!(app.text_box_title, "Feature Name");
    assert!(is_stay(&type_line(&mut app, "My Feature")));
    assert_eq!(app.text_box_title, "Description");
    assert!(is_stay(&type_line(&mut app, "desc text")));
    assert_eq!(app.text_box_title, "Needs notes? (Yes/No)");
    match type_line(&mut app, "Yes") {
        AppAction::CreateFeature(f) => {
            assert_eq!(f.name, "My Feature");
            assert_eq!(f.description, "desc text");
            assert_eq!(f.release_id, "v1");
            assert_eq!(f.custom_fields.map(|c| c.notes), Some("Required".to_string()));
        },
        _ => panic!("expected a feature to send"),
    }
    assert_eq!(app.popup, Popup::Closed);
    assert_eq!(app.text_box_title, "Feature Name");
    assert_eq!(app.new_feature.name, "");
}

#[test]
fn escape_drops_the_feature() {
    let mut app = at_features();
    app.handle_event(Key::Char('c'));
    type_line(&mut app, "Half");
    app.handle_event(Key::Char('x'));
    app.handle_event(Key::Esc);
    assert_eq!(app.popup, Popup::Closed);
    assert_eq!(app.text_box_title, "Feature Name");
    assert_eq!(app.text_box, "");
    assert_eq!(app.new_feature.name, "");
}

#[test]
fn requirement_prompts_send_the_requirement() {
    let mut app = at_features();
    app.handle_event(Key::Down);
    app.handle_event(Key::Down);
    app.handle_event(Key::Right);
    app.handle_event(Key::Char('c'));
    assert_eq!(app.text_box_title, "Requirement Name");
    assert!(is_stay(&type_line(&mut app, "Req")));
    match type_line(&mut app, "About it") {
        AppAction::CreateRequirement { feature_ref, release_id, requirement } => {
            assert_eq!(feature_ref, "REF-f1");
            assert_eq!(release_id, "v1");
            assert_eq!(requirement.name, "Req");
            assert_eq!(requirement.description, "About it");
        },
        _ => panic!("expected a requirement to send"),
    }
    assert_eq!(app.popup, Popup::Closed);
}

#[test]
fn create_needs_a_release() {
    let mut app = browser();
    app.handle_event(Key::Char('c'));
    assert_eq!(app.popup, Popup::Closed);
}

#[test]
fn quit_key_quits() {
    let mut app = browser();
    assert!(matches!(app.handle_event(Key::Char('q')), AppAction::Quit));
}

#[test]
fn keys_are_read_from_names() {
    assert_eq!(get_key_from("x"), Key::Char('x'));
    assert_eq!(get_key_from("up"), Key::Up);
    assert_eq!(get_key_from("down"), Key::Down);
    assert_eq!(get_key_from("left"), Key::Left);
    assert_eq!(get_key_from("right"), Key::Right);
    assert_eq!(get_key_from("esc"), Key::Esc);
    assert_eq!(get_key_from("none"), Key::Null);
    assert_eq!(get_key_from("\n"), Key::Char('\n'));
    assert_eq!(get_key_from("alt+j"), Key::Alt('j'));
    assert_eq!(get_key_from("ctrl+k"), Key::Ctrl('k'));
    assert_eq!(get_key_from("alt+"), Key::Null);
    assert_eq!(get_key_from("é"), Key::Null);
    assert_eq!(get_key_from("nonsense"), Key::Null);
}

#[test]
fn layout_replaces_named_keys_only() {
    let mut app = App::new();
    let layout = Layout {
        up: Some("w".to_string()),
        down: None,
        left: None,
        right: None,
        up_arrow: None,
        down_arrow: None,
        left_arrow: None,
        right_arrow: None,
        right_alt: None,
        escape: None,
        quit: Some("ctrl+c".to_string()),
        search: None,
        create: None,
    };
    app.load_layout(&layout);
    assert_eq!(app.layout.up, Key::Char('w'));
    assert_eq!(app.layout.quit, Key::Ctrl('c'));
    assert_eq!(app.layout.down, KeyLayout::default().down);
    assert_eq!(command_of(&app.layout, Key::Char('w')), Command::Up);
    assert_eq!(command_of(&app.layout, Key::Char('q')), Command::Other);
}

#[test]
fn default_keys_map_to_commands() {
    let k = KeyLayout::default();
    assert_eq!(command_of(&k, Key::Char('q')), Command::Quit);
    assert_eq!(command_of(&k, Key::Char('s')), Command::Search);
    assert_eq!(command_of(&k, Key::Char('c')), Command::Create);
    assert_eq!(command_of(&k, Key::Left), Command::Back);
    assert_eq!(command_of(&k, Key::Right), Command::Enter);
    assert_eq!(command_of(&k, Key::Char('j')), Command::Down);
    assert_eq!(command_of(&k, Key::Char('k')), Command::Up);
    assert_eq!(command_of(&k, Key::Char('z')), Command::Other);
}
