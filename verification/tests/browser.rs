use dir_browser::app::{App, Command, Entry, SnapshotResult};
use dir_browser::file_types::FileType;

fn entry(kind: FileType, name: &str) -> Entry {
    Entry { kind, name: name.to_string() }
}

fn path(components: &[&str]) -> Vec<String> {
    components.iter().map(|c| c.to_string()).collect()
}

/// A browser looking at /tmp/x, which holds a file and a directory.
fn tmp_x() -> App {
    App::new(
        path(&["tmp", "x"]),
        SnapshotResult::Listed(vec![
            entry(FileType::FILE, "a.txt"),
            entry(FileType::DIR, "b"),
        ]),
    )
}

fn check_invariant(app: &App) {
    let items = app.current_dir_items();
    match app.selected {
        Some(i) => assert!(!items.is_empty() && i < items.len()),
        None => assert!(items.is_empty()),
    }
    assert!(!(app.has_error() && app.show_details));
    if app.has_error() {
        assert!(items.is_empty());
    }
}

#[test]
fn new_with_listing_selects_first_entry() {
    let app = tmp_x();
    assert!(app.running);
    assert_eq!(app.current_dir(), &path(&["tmp", "x"]));
    assert_eq!(app.selected, Some(0));
    assert!(!app.has_error());
    assert!(!app.show_details);
    let items = app.current_dir_items();
    assert_eq!(items.len(), 2);
    assert_eq!(items[0], (FileType::FILE, "a.txt".to_string()));
    assert_eq!(items[1], (FileType::DIR, "b".to_string()));
}

#[test]
fn new_with_empty_listing_has_no_selection() {
    let app = App::new(path(&["tmp"]), SnapshotResult::Listed(Vec::new()));
    assert_eq!(app.selected, None);
    assert!(app.current_dir_items().is_empty());
    assert!(!app.has_error());
}

#[test]
fn move_selection_down_then_descend_into_directory() {
    let mut app = tmp_x();
    assert_eq!(app.selected, Some(0));

    let needs = app.apply(Command::MoveSelectionDown);
    assert!(!needs);
    assert_eq!(app.selected, Some(1));

    let needs = app.apply(Command::Descend);
    assert!(needs);
    assert_eq!(app.current_dir(), &path(&["tmp", "x", "b"]));

    app.load_snapshot(SnapshotResult::Listed(Vec::new()));
    assert_eq!(app.selected, None);
    assert!(app.current_dir_items().is_empty());
}

#[test]
fn descend_on_file_is_noop() {
    let mut app = tmp_x();
    assert_eq!(app.selected, Some(0));

    let needs = app.apply(Command::Descend);
    assert!(!needs);
    assert_eq!(app.current_dir(), &path(&["tmp", "x"]));
    assert_eq!(app.selected, Some(0));
    assert_eq!(app.current_dir_items().len(), 2);
}

#[test]
fn read_failure_raises_error_and_confirm_ascends() {
    let mut app = App::new(
        path(&["tmp", "x"]),
        SnapshotResult::Failed("permission denied".to_string()),
    );
    assert_eq!(app.error, "permission denied");
    assert_eq!(app.selected, None);
    assert!(app.current_dir_items().is_empty());
    assert!(app.has_error());
    assert!(!app.show_details);

    let needs = app.apply(Command::Confirm);
    assert!(needs);
    assert!(!app.has_error());
    assert_eq!(app.current_dir(), &path(&["tmp"]));

    app.load_snapshot(SnapshotResult::Listed(vec![entry(FileType::DIR, "x")]));
    assert_eq!(app.selected, Some(0));
    assert_eq!(app.current_dir_items().len(), 1);
}

#[test]
fn confirm_toggles_detail_overlay() {
    let mut app = tmp_x();

    let needs = app.apply(Command::Confirm);
    assert!(!needs);
    assert!(app.show_details);
    assert!(!app.has_error());
    assert_eq!(app.current_dir(), &path(&["tmp", "x"]));

    let needs = app.apply(Command::Confirm);
    assert!(!needs);
    assert!(!app.show_details);
    assert!(!app.has_error());
    assert_eq!(app.current_dir(), &path(&["tmp", "x"]));
}

#[test]
fn confirm_without_selection_shows_no_overlay() {
    let mut app = App::new(path(&["tmp"]), SnapshotResult::Listed(Vec::new()));
    let needs = app.apply(Command::Confirm);
    assert!(!needs);
    assert!(!app.show_details);
    assert!(!app.has_error());
}

#[test]
fn select_down_at_last_entry_is_noop() {
    let mut app = tmp_x();
    app.apply(Command::MoveSelectionDown);
    assert_eq!(app.selected, Some(1));

    app.apply(Command::MoveSelectionDown);
    assert_eq!(app.selected, Some(1));
    assert_eq!(app.current_dir(), &path(&["tmp", "x"]));
    assert!(!app.has_error());
    assert!(!app.show_details);
    assert_eq!(app.current_dir_items().len(), 2);
}

#[test]
fn select_up_at_first_entry_is_noop() {
    let mut app = tmp_x();
    app.apply(Command::MoveSelectionUp);
    assert_eq!(app.selected, Some(0));
}

#[test]
fn selection_moves_on_empty_listing_are_noops() {
    let mut app = App::new(path(&["tmp"]), SnapshotResult::Listed(Vec::new()));
    app.apply(Command::MoveSelectionDown);
    assert_eq!(app.selected, None);
    app.apply(Command::MoveSelectionUp);
    assert_eq!(app.selected, None);
}

#[test]
fn ascend_at_root_is_noop() {
    let mut app = App::new(
        Vec::new(),
        SnapshotResult::Listed(vec![entry(FileType::DIR, "home")]),
    );
    let needs = app.apply(Command::Ascend);
    assert!(!needs);
    assert!(app.current_dir().is_empty());
    assert_eq!(app.selected, Some(0));
    assert_eq!(app.current_dir_items().len(), 1);
}

#[test]
fn descend_then_ascend_restores_path() {
    let mut app = tmp_x();
    let before = app.current_dir().clone();

    app.apply(Command::MoveSelectionDown);
    assert!(app.apply(Command::Descend));
    app.load_snapshot(SnapshotResult::Listed(vec![entry(FileType::FILE, "c.txt")]));

    assert!(app.apply(Command::Ascend));
    assert_eq!(app.current_dir(), &before);
}

#[test]
fn error_overlay_freezes_navigation() {
    let mut app = App::new(path(&["tmp", "x"]), SnapshotResult::Failed("not a directory".to_string()));
    assert!(!app.apply(Command::MoveSelectionDown));
    assert!(!app.apply(Command::MoveSelectionUp));
    assert!(!app.apply(Command::Descend));
    assert!(!app.apply(Command::Ascend));
    assert_eq!(app.current_dir(), &path(&["tmp", "x"]));
    assert_eq!(app.error, "not a directory");
    assert_eq!(app.selected, None);
}

#[test]
fn detail_overlay_freezes_navigation() {
    let mut app = tmp_x();
    app.apply(Command::Confirm);
    assert!(app.show_details);

    assert!(!app.apply(Command::MoveSelectionDown));
    assert_eq!(app.selected, Some(0));
    assert!(!app.apply(Command::Descend));
    assert!(!app.apply(Command::Ascend));
    assert_eq!(app.current_dir(), &path(&["tmp", "x"]));
    assert!(app.show_details);
}

#[test]
fn clearing_error_at_root_stays_at_root() {
    let mut app = App::new(Vec::new(), SnapshotResult::Failed("no such directory".to_string()));
    assert!(app.has_error());

    let needs = app.apply(Command::Confirm);
    assert!(!needs);
    assert!(!app.has_error());
    assert!(app.current_dir().is_empty());
    assert_eq!(app.selected, None);
}

#[test]
fn quit_stops_the_session() {
    let mut app = tmp_x();
    assert!(app.running);
    let needs = app.apply(Command::Quit);
    assert!(!needs);
    assert!(!app.running);
}

#[test]
fn details_returns_the_selected_entry() {
    let mut app = tmp_x();
    let e = app.details().expect("a selection is present");
    assert_eq!(e.kind, FileType::FILE);
    assert_eq!(e.name, "a.txt");

    app.apply(Command::MoveSelectionDown);
    let e = app.details().expect("a selection is present");
    assert_eq!(e.kind, FileType::DIR);
    assert_eq!(e.name, "b");
}

#[test]
fn details_fails_without_a_selection() {
    let app = App::new(path(&["tmp"]), SnapshotResult::Listed(Vec::new()));
    assert!(app.details().is_err());
}

#[test]
fn listing_order_is_preserved() {
    let names = ["zeta", "alpha", "mid"];
    let app = App::new(
        path(&["d"]),
        SnapshotResult::Listed(names.iter().map(|n| entry(FileType::FILE, n)).collect()),
    );
    let items = app.current_dir_items();
    assert_eq!(items.len(), 3);
    for (i, n) in names.iter().enumerate() {
        assert_eq!(items[i].1, n.to_string());
    }
}

#[test]
fn tick_leaves_state_readable() {
    let app = tmp_x();
    app.tick();
    assert_eq!(app.selected, Some(0));
}

#[test]
fn invariant_holds_across_command_sequence() {
    let mut app = tmp_x();
    check_invariant(&app);

    let script = [
        Command::MoveSelectionDown,
        Command::MoveSelectionDown,
        Command::MoveSelectionUp,
        Command::Confirm,
        Command::MoveSelectionDown,
        Command::Confirm,
        Command::MoveSelectionDown,
        Command::Descend,
        Command::Ascend,
        Command::Confirm,
        Command::Ascend,
        Command::Confirm,
    ];
    let mut fail_next = true;
    for cmd in script {
        let needs = app.apply(cmd);
        check_invariant(&app);
        if needs {
            if fail_next {
                app.load_snapshot(SnapshotResult::Failed("transient failure".to_string()));
            } else {
                app.load_snapshot(SnapshotResult::Listed(vec![
                    entry(FileType::DIR, "b"),
                    entry(FileType::SYMLINK, "link"),
                ]));
            }
            fail_next = !fail_next;
            check_invariant(&app);
        }
    }
}
