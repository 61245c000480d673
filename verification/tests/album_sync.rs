use album_sync::album::{clone_albums, Album, RawEntry};
use album_sync::diff::{contains_name, diff_on_albums_list};
use album_sync::error::ErrorKind;
use album_sync::lister::load_albums;
use album_sync::plan::{compute_plan, execute_report};
use album_sync::state::{Message, MyApp};

fn album(name: &str, path: &str, selected: bool) -> Album {
    Album { name: name.to_string(), path: path.to_string(), selected }
}

fn entry(name: &str, path: &str) -> RawEntry {
    RawEntry { name: name.to_string(), path: path.to_string() }
}

fn names_and_flags(albums: &[Album]) -> Vec<(String, bool)> {
    albums.iter().map(|a| (a.name.clone(), a.selected)).collect()
}

#[test]
fn load_albums_without_root_fails() {
    let r = load_albums(None, None);
    assert_eq!(r.unwrap_err(), ErrorKind::NoRootSelected);
    // even entries in hand do not help without a picked root
    let r = load_albums(None, Some(vec![entry("A", "/s/A")]));
    assert_eq!(r.unwrap_err(), ErrorKind::NoRootSelected);
}

#[test]
fn load_albums_unreadable_root_fails() {
    let r = load_albums(Some("/no/such/dir".to_string()), None);
    assert_eq!(r.unwrap_err(), ErrorKind::DirectoryUnreadable);
}

#[test]
fn load_albums_returns_one_album_per_entry() {
    let entries = vec![entry("A", "/s/A"), entry("song.flac", "/s/song.flac"), entry("B", "/s/B")];
    let albums = load_albums(Some("/s".to_string()), Some(entries)).unwrap();
    assert_eq!(albums.len(), 3);
    for (i, (name, path)) in
        [("A", "/s/A"), ("song.flac", "/s/song.flac"), ("B", "/s/B")].iter().enumerate()
    {
        assert_eq!(albums[i].name, *name);
        assert_eq!(albums[i].path, *path);
        assert!(!albums[i].selected);
    }
}

#[test]
fn reconcile_empty_source_stays_empty() {
    let target = vec![album("A", "/t/A", false)];
    let r = diff_on_albums_list(Vec::new(), target);
    assert!(r.is_empty());
}

#[test]
fn reconcile_empty_target_keeps_source() {
    let source = vec![album("A", "/s/A", true), album("B", "/s/B", false)];
    let r = diff_on_albums_list(clone_albums(&source), Vec::new());
    assert_eq!(names_and_flags(&r), names_and_flags(&source));
}

#[test]
fn reconcile_flips_only_names_present_on_target() {
    let source = vec![album("A", "/s/A", false), album("B", "/s/B", false), album("C", "/s/C", true)];
    let target = vec![album("A", "/t/A", false), album("C", "/t/C", false)];
    let r = diff_on_albums_list(source, target);
    assert_eq!(r.len(), 3);
    assert_eq!((r[0].name.as_str(), r[0].path.as_str(), r[0].selected), ("A", "/s/A", true));
    assert_eq!((r[1].name.as_str(), r[1].path.as_str(), r[1].selected), ("B", "/s/B", false));
    assert_eq!((r[2].name.as_str(), r[2].path.as_str(), r[2].selected), ("C", "/s/C", false));
}

#[test]
fn reconcile_twice_flips_back() {
    // deliberately not idempotent: a second run undoes the pre-marking
    let source = vec![album("A", "/s/A", false), album("B", "/s/B", false)];
    let target = vec![album("A", "/t/A", false)];
    let once = diff_on_albums_list(source, clone_albums(&target));
    let twice = diff_on_albums_list(once, target);
    assert_eq!(
        names_and_flags(&twice),
        vec![("A".to_string(), false), ("B".to_string(), false)]
    );
}

#[test]
fn contains_name_is_exact_and_case_sensitive() {
    let t = vec![album("Abbey Road", "/t/Abbey Road", false)];
    assert!(contains_name(&t, &"Abbey Road".to_string()));
    assert!(!contains_name(&t, &"abbey road".to_string()));
    assert!(!contains_name(&t, &"Abbey".to_string()));
}

#[test]
fn toggle_flips_exactly_one_album() {
    let mut app = MyApp::default();
    app.source_albums = vec![album("A", "/s/A", false), album("B", "/s/B", false)];
    app.select_album("B".to_string());
    assert_eq!(
        names_and_flags(&app.source_albums),
        vec![("A".to_string(), false), ("B".to_string(), true)]
    );
}

#[test]
fn toggle_twice_restores_the_flag() {
    let mut app = MyApp::default();
    app.source_albums = vec![album("A", "/s/A", true), album("B", "/s/B", false)];
    app.select_album("A".to_string());
    app.select_album("A".to_string());
    assert_eq!(
        names_and_flags(&app.source_albums),
        vec![("A".to_string(), true), ("B".to_string(), false)]
    );
}

#[test]
fn toggle_unknown_name_changes_nothing() {
    let mut app = MyApp::default();
    app.source_albums = vec![album("A", "/s/A", false)];
    app.select_album("Z".to_string());
    assert_eq!(names_and_flags(&app.source_albums), vec![("A".to_string(), false)]);
}

#[test]
fn plan_adds_only_selected_names_absent_from_target() {
    let source = vec![
        album("A", "/s/A", true),
        album("B", "/s/B", true),
        album("C", "/s/C", false),
        album("D", "/s/D", false),
    ];
    let target = vec![album("A", "/t/A", false), album("C", "/t/C", false)];
    let p = compute_plan(&source, &target);
    // no added name is present on the target; removal candidates only for
    // names that are
    assert_eq!(p.to_add, vec!["/s/B".to_string()]);
    assert_eq!(p.to_remove, vec!["/s/C".to_string()]);
}

#[test]
fn scenario_pre_marking_after_target_pick() {
    let mut app = MyApp::default();
    app.pick_source(
        Some("/s".to_string()),
        Some(vec![entry("A", "/s/A"), entry("B", "/s/B")]),
    );
    assert_eq!(
        names_and_flags(&app.source_albums),
        vec![("A".to_string(), false), ("B".to_string(), false)]
    );
    app.pick_target(Some("/t".to_string()), Some(vec![entry("A", "/t/A")]));
    // A is already on the target, so it was pre-marked
    assert_eq!(
        names_and_flags(&app.source_albums),
        vec![("A".to_string(), true), ("B".to_string(), false)]
    );
    // with the flags as picked, the plan adds nothing and names A's source
    // path as the one removal candidate
    let source = vec![album("A", "/s/A", false), album("B", "/s/B", false)];
    let target = vec![album("A", "/t/A", false)];
    let p = compute_plan(&source, &target);
    assert!(p.to_add.is_empty());
    assert_eq!(p.to_remove, vec!["/s/A".to_string()]);
}

#[test]
fn scenario_toggle_then_plan_then_sync() {
    let source = vec![album("A", "/s/A", false), album("B", "/s/B", false)];
    let target = vec![album("A", "/t/A", false)];
    let mut app = MyApp::default();
    app.source_albums = clone_albums(&source);
    app.target_albums = clone_albums(&target);
    app.target_folder = Some("/t".to_string());
    app.select_album("B".to_string());
    let p = app.sync_albums().unwrap();
    assert_eq!(p.to_add, vec!["/s/B".to_string()]);
    assert_eq!(p.to_remove, vec!["/s/A".to_string()]);
    // every copy succeeded
    app.update(Message::SyncFinished(execute_report(Vec::new())));
    assert_eq!(app.error_message, "");
    // a fresh listing of the target root now shows B as well
    let listed = load_albums(
        Some("/t".to_string()),
        Some(vec![entry("A", "/t/A"), entry("B", "/t/B")]),
    )
    .unwrap();
    assert!(listed.iter().any(|a| a.name == "B"));
}

#[test]
fn scenario_unreadable_target_keeps_previous_list() {
    let mut app = MyApp::default();
    app.pick_source(
        Some("/s".to_string()),
        Some(vec![entry("A", "/s/A"), entry("B", "/s/B")]),
    );
    app.pick_target(Some("/t".to_string()), Some(vec![entry("A", "/t/A")]));
    assert_eq!(app.target_albums.len(), 1);
    assert_eq!(
        names_and_flags(&app.source_albums),
        vec![("A".to_string(), true), ("B".to_string(), false)]
    );
    app.pick_target(Some("/gone".to_string()), None);
    // the error is recorded, the previous target list stays, and no source
    // flag moves: a failed enumeration reconciles nothing
    assert_eq!(app.error_message, "Could not load directory");
    assert_eq!(app.target_albums.len(), 1);
    assert_eq!(app.target_albums[0].name, "A");
    assert_eq!(
        names_and_flags(&app.source_albums),
        vec![("A".to_string(), true), ("B".to_string(), false)]
    );
    // the root itself was still re-recorded
    assert_eq!(app.target_folder, Some("/gone".to_string()));
}

#[test]
fn failed_source_pick_keeps_previous_list_intact() {
    let mut app = MyApp::default();
    app.source_albums = vec![album("A", "/s/A", true)];
    app.target_albums = vec![album("A", "/t/A", false)];
    app.pick_source(Some("/gone".to_string()), None);
    // the kept source list is not re-reconciled: A stays pre-marked
    assert_eq!(names_and_flags(&app.source_albums), vec![("A".to_string(), true)]);
    assert_eq!(app.error_message, "Could not load directory");
    assert_eq!(app.source_folder, Some("/gone".to_string()));
}

#[test]
fn cancelled_source_pick_keeps_previous_list_intact() {
    let mut app = MyApp::default();
    app.source_albums = vec![album("A", "/s/A", false)];
    app.target_albums = vec![album("A", "/t/A", false)];
    app.update(Message::SelectSourceDir(None, None));
    assert_eq!(names_and_flags(&app.source_albums), vec![("A".to_string(), false)]);
    assert_eq!(app.error_message, "Could not open directory");
    assert_eq!(app.source_folder, None);
}

#[test]
fn cancelled_pick_reports_no_root() {
    let mut app = MyApp::default();
    app.pick_source(None, None);
    assert_eq!(app.error_message, "Could not open directory");
    assert_eq!(app.source_folder, None);
}

#[test]
fn sync_without_target_root_fails() {
    let mut app = MyApp::default();
    app.source_albums = vec![album("A", "/s/A", true)];
    let r = app.sync_albums();
    assert_eq!(r.unwrap_err(), ErrorKind::TargetRootMissing);
}

#[test]
fn execute_report_lists_the_failed_copies() {
    assert_eq!(execute_report(Vec::new()), Ok(()));
    let failed = vec!["/s/B".to_string()];
    assert_eq!(
        execute_report(failed.clone()),
        Err(ErrorKind::SyncPartiallyFailed(failed))
    );
}

#[test]
fn update_dispatches_each_message() {
    let mut app = MyApp::default();
    app.update(Message::SelectSourceDir(
        Some("/s".to_string()),
        Some(vec![entry("A", "/s/A")]),
    ));
    assert_eq!(app.source_folder, Some("/s".to_string()));
    assert_eq!(app.source_albums.len(), 1);
    app.update(Message::SelectTargetDir(Some("/t".to_string()), Some(vec![entry("A", "/t/A")])));
    assert!(app.source_albums[0].selected);
    app.update(Message::Album("A".to_string()));
    assert!(!app.source_albums[0].selected);
    app.update(Message::SyncFinished(Err(ErrorKind::TargetRootMissing)));
    assert_eq!(app.error_message, "Error when syncing");
}

#[test]
fn error_messages_have_their_texts() {
    assert_eq!(ErrorKind::NoRootSelected.message(), "Could not open directory");
    assert_eq!(ErrorKind::DirectoryUnreadable.message(), "Could not load directory");
    assert_eq!(ErrorKind::TargetRootMissing.message(), "No target directory selected");
    assert_eq!(
        ErrorKind::SyncPartiallyFailed(vec!["/s/B".to_string()]).message(),
        "Error when syncing"
    );
}

#[test]
fn clone_albums_copies_every_field() {
    let v = vec![album("A", "/s/A", true), album("B", "/s/B", false)];
    let c = clone_albums(&v);
    assert_eq!(names_and_flags(&c), names_and_flags(&v));
    assert_eq!(c[0].path, "/s/A");
    assert_eq!(c[1].path, "/s/B");
}

#[test]
fn default_state_is_empty() {
    let app = MyApp::default();
    assert_eq!(app.error_message, "");
    assert_eq!(app.source_folder, None);
    assert_eq!(app.target_folder, None);
    assert!(app.source_albums.is_empty());
    assert!(app.target_albums.is_empty());
}
