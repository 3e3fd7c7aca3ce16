use file_dialog::DialogMode;
use file_dialog::DialogState;
use file_dialog::DirEntry;
use file_dialog::EntryKind;
use file_dialog::FileDialog;
use file_dialog::FilePath;
use file_dialog::IoError;

fn path(segments: &[&str]) -> FilePath {
    FilePath::new(segments.iter().map(|s| s.to_string()).collect())
}

fn dir_entry(segments: &[&str]) -> DirEntry {
    DirEntry::new(path(segments), EntryKind::Directory)
}

fn file_entry(segments: &[&str]) -> DirEntry {
    DirEntry::new(path(segments), EntryKind::File)
}

fn home_listing() -> Vec<DirEntry> {
    vec![
        dir_entry(&["home", "user", "Documents"]),
        dir_entry(&["home", "user", "Downloads"]),
        file_entry(&["home", "user", "notes.txt"]),
    ]
}

#[test]
fn select_directory_scenario() {
    let mut dialog = FileDialog::new().initial_directory(path(&["home", "user"]));
    dialog.open(DialogMode::SelectDirectory, Ok(home_listing()));

    assert_eq!(dialog.state(), DialogState::Open);
    assert_eq!(dialog.mode(), DialogMode::SelectDirectory);
    assert_eq!(dialog.current_directory(), Some(path(&["home", "user"])));
    assert_eq!(dialog.directory_content(), &home_listing());

    dialog.select_item(&path(&["home", "user", "Documents"]));
    assert!(dialog.is_selection_valid());

    dialog.confirm();
    assert_eq!(
        dialog.state(),
        DialogState::Selected(path(&["home", "user", "Documents"]))
    );
}

#[test]
fn save_file_scenario() {
    let mut dialog = FileDialog::new().initial_directory(path(&["tmp"]));
    dialog.open(DialogMode::SaveFile, Ok(vec![file_entry(&["tmp", "old.log"])]));

    // The empty name is rejected from the start.
    assert!(dialog.file_name_input_error().is_some());

    dialog.set_file_name_input(String::new());
    assert!(dialog.file_name_input_error().is_some());
    assert!(!dialog.is_selection_valid());
    dialog.confirm();
    assert_eq!(dialog.state(), DialogState::Open);

    dialog.set_file_name_input("out.txt".to_string());
    assert!(dialog.file_name_input_error().is_none());
    assert!(dialog.is_selection_valid());
    dialog.confirm();
    assert_eq!(dialog.state(), DialogState::Selected(path(&["tmp", "out.txt"])));
}

#[test]
fn save_file_rejects_existing_file_name() {
    let mut dialog = FileDialog::new().initial_directory(path(&["tmp"]));
    dialog.open(DialogMode::SaveFile, Ok(vec![file_entry(&["tmp", "taken.txt"])]));

    dialog.set_file_name_input("taken.txt".to_string());
    assert_eq!(
        dialog.file_name_input_error().as_deref(),
        Some("A file with this name already exists")
    );

    // A directory of the same name is deliberately not rejected.
    let mut other = FileDialog::new().initial_directory(path(&["tmp"]));
    other.open(DialogMode::SaveFile, Ok(vec![dir_entry(&["tmp", "taken.txt"])]));
    other.set_file_name_input("taken.txt".to_string());
    assert!(other.file_name_input_error().is_none());
}

#[test]
fn selecting_existing_file_seeds_save_name() {
    let mut dialog = FileDialog::new().initial_directory(path(&["tmp"]));
    dialog.open(DialogMode::SaveFile, Ok(vec![file_entry(&["tmp", "report.pdf"])]));

    dialog.select_item(&path(&["tmp", "report.pdf"]));
    assert_eq!(dialog.file_name_input().as_str(), "report.pdf");
    assert_eq!(
        dialog.file_name_input_error().as_deref(),
        Some("A file with this name already exists")
    );
}

#[test]
fn forward_history_is_discarded_by_navigation() {
    let mut dialog = FileDialog::new().initial_directory(path(&["a"]));
    dialog.open(DialogMode::SelectFile, Ok(vec![]));

    dialog.load_directory(&path(&["b"]), Ok(vec![]));
    assert_eq!(dialog.current_directory(), Some(path(&["b"])));

    dialog.load_previous_directory(Ok(vec![]));
    assert_eq!(dialog.current_directory(), Some(path(&["a"])));
    assert!(dialog.can_load_next_directory());

    dialog.load_directory(&path(&["c"]), Ok(vec![]));
    assert_eq!(dialog.current_directory(), Some(path(&["c"])));
    assert!(!dialog.can_load_next_directory());

    // Forward is unavailable: stepping forward changes nothing.
    dialog.load_next_directory(Ok(vec![]));
    assert_eq!(dialog.current_directory(), Some(path(&["c"])));
}

#[test]
fn back_then_forward_restores_current_directory() {
    let mut dialog = FileDialog::new().initial_directory(path(&["a"]));
    dialog.open(DialogMode::SelectFile, Ok(vec![]));
    dialog.load_directory(&path(&["b"]), Ok(vec![]));

    assert!(dialog.can_load_previous_directory());
    dialog.load_previous_directory(Ok(vec![]));
    assert_eq!(dialog.current_directory(), Some(path(&["a"])));
    dialog.load_next_directory(Ok(vec![]));
    assert_eq!(dialog.current_directory(), Some(path(&["b"])));
}

#[test]
fn previous_and_next_directory_peek_without_moving() {
    let mut dialog = FileDialog::new().initial_directory(path(&["a"]));
    dialog.open(DialogMode::SelectFile, Ok(vec![]));
    dialog.load_directory(&path(&["b"]), Ok(vec![]));

    assert_eq!(dialog.previous_directory(), Some(path(&["a"])));
    assert_eq!(dialog.next_directory(), None);
    assert_eq!(dialog.current_directory(), Some(path(&["b"])));

    dialog.load_previous_directory(Ok(vec![]));
    assert_eq!(dialog.previous_directory(), None);
    assert_eq!(dialog.next_directory(), Some(path(&["b"])));
}

#[test]
fn save_file_selection_follows_name_error_alone() {
    let mut dialog = FileDialog::new().initial_directory(path(&["tmp"]));
    dialog.open(DialogMode::SaveFile, Ok(vec![file_entry(&["tmp", "taken.txt"])]));

    // Selecting the existing file seeds its colliding name: invalid.
    dialog.select_item(&path(&["tmp", "taken.txt"]));
    assert!(!dialog.is_selection_valid());

    // With a fresh name the selection is valid, the item still selected.
    dialog.set_file_name_input("fresh.txt".to_string());
    assert!(dialog.is_selection_valid());
    assert_eq!(dialog.selected_item(), Some(&path(&["tmp", "taken.txt"])));
}

#[test]
fn renavigating_to_current_directory_changes_nothing() {
    let listing = home_listing();
    let mut dialog = FileDialog::new().initial_directory(path(&["home", "user"]));
    dialog.open(DialogMode::SelectDirectory, Ok(listing.clone()));
    dialog.select_item(&path(&["home", "user", "Documents"]));

    // Even a different listing outcome is ignored: nothing is reloaded.
    dialog.load_directory(&path(&["home", "user"]), Ok(vec![]));

    assert_eq!(dialog.directory_content(), &listing);
    assert_eq!(dialog.current_directory(), Some(path(&["home", "user"])));
    assert_eq!(dialog.selected_item(), Some(&path(&["home", "user", "Documents"])));
    assert!(!dialog.can_load_previous_directory());
}

#[test]
fn failed_listing_keeps_dialog_open_with_stale_listing() {
    let listing = home_listing();
    let mut dialog = FileDialog::new().initial_directory(path(&["home", "user"]));
    dialog.open(DialogMode::SelectDirectory, Ok(listing.clone()));

    dialog.load_directory(
        &path(&["home", "user", "locked"]),
        Err(IoError { message: "permission denied".to_string() }),
    );

    assert_eq!(dialog.state(), DialogState::Open);
    assert_eq!(dialog.directory_content(), &listing);
    assert_eq!(dialog.current_directory(), Some(path(&["home", "user", "locked"])));
    // Navigation still cleared the selection.
    assert_eq!(dialog.selected_item(), None);
}

#[test]
fn failed_initial_listing_leaves_listing_empty_but_open() {
    let mut dialog = FileDialog::new().initial_directory(path(&["gone"]));
    dialog.open(
        DialogMode::SelectFile,
        Err(IoError { message: "no such directory".to_string() }),
    );

    assert_eq!(dialog.state(), DialogState::Open);
    assert!(dialog.directory_content().is_empty());
    assert_eq!(dialog.current_directory(), Some(path(&["gone"])));
}

#[test]
fn create_directory_scenario() {
    let mut dialog = FileDialog::new().initial_directory(path(&["tmp"]));
    dialog.open(DialogMode::SelectDirectory, Ok(vec![dir_entry(&["tmp", "existing"])]));

    dialog.open_create_directory();
    assert!(dialog.create_directory_dialog().is_open());
    // The fresh input is empty, so the empty-name error is present.
    assert_eq!(
        dialog.create_directory_dialog().error().as_deref(),
        Some("Name of the folder can not be empty")
    );
    assert_eq!(dialog.create_directory_target(), None);

    dialog.set_create_directory_name("newdir".to_string());
    assert!(dialog.create_directory_dialog().error().is_none());
    assert_eq!(dialog.create_directory_target(), Some(path(&["tmp", "newdir"])));

    dialog.commit_create_directory(Ok(()));

    assert!(!dialog.create_directory_dialog().is_open());
    assert!(dialog.directory_content().contains(&dir_entry(&["tmp", "newdir"])));
    assert_eq!(dialog.selected_item(), Some(&path(&["tmp", "newdir"])));
    assert!(dialog.is_selection_valid());
}

#[test]
fn create_directory_rejects_duplicate_name() {
    let mut dialog = FileDialog::new().initial_directory(path(&["tmp"]));
    dialog.open(DialogMode::SelectDirectory, Ok(vec![dir_entry(&["tmp", "existing"])]));

    dialog.open_create_directory();
    dialog.set_create_directory_name("existing".to_string());
    assert_eq!(
        dialog.create_directory_dialog().error().as_deref(),
        Some("A directory with the name already exists")
    );
    assert_eq!(dialog.create_directory_target(), None);

    // A rejected commit changes nothing.
    dialog.commit_create_directory(Ok(()));
    assert!(dialog.create_directory_dialog().is_open());
    assert_eq!(dialog.directory_content().len(), 1);
}

#[test]
fn create_directory_failure_surfaces_error_and_stays_open() {
    let mut dialog = FileDialog::new().initial_directory(path(&["tmp"]));
    dialog.open(DialogMode::SelectDirectory, Ok(vec![]));

    dialog.open_create_directory();
    dialog.set_create_directory_name("newdir".to_string());
    dialog.commit_create_directory(Err("permission denied".to_string()));

    assert!(dialog.create_directory_dialog().is_open());
    assert_eq!(dialog.create_directory_dialog().input().as_str(), "newdir");
    assert_eq!(
        dialog.create_directory_dialog().error().as_deref(),
        Some("Error: permission denied")
    );
}

#[test]
fn navigation_closes_create_directory_dialog() {
    let mut dialog = FileDialog::new().initial_directory(path(&["tmp"]));
    dialog.open(DialogMode::SelectDirectory, Ok(vec![]));

    dialog.open_create_directory();
    assert!(dialog.create_directory_dialog().is_open());

    dialog.load_directory(&path(&["var"]), Ok(vec![]));
    assert!(!dialog.create_directory_dialog().is_open());
}

#[test]
fn cancel_ends_the_session() {
    let mut dialog = FileDialog::new().initial_directory(path(&["tmp"]));
    dialog.open(DialogMode::SelectFile, Ok(vec![]));
    dialog.cancel();
    assert_eq!(dialog.state(), DialogState::Cancelled);
}

#[test]
fn confirm_without_valid_selection_is_rejected() {
    let mut dialog = FileDialog::new().initial_directory(path(&["tmp"]));
    dialog.open(
        DialogMode::SelectFile,
        Ok(vec![file_entry(&["tmp", "a.txt"]), dir_entry(&["tmp", "sub"])]),
    );

    // No selection at all.
    assert!(!dialog.is_selection_valid());
    dialog.confirm();
    assert_eq!(dialog.state(), DialogState::Open);

    // A directory is not a valid selection in SelectFile mode.
    dialog.select_item(&path(&["tmp", "sub"]));
    assert!(!dialog.is_selection_valid());

    // A path outside the listing is not a valid selection.
    dialog.select_item(&path(&["tmp", "ghost.txt"]));
    assert!(!dialog.is_selection_valid());

    dialog.select_item(&path(&["tmp", "a.txt"]));
    assert!(dialog.is_selection_valid());
}

#[test]
fn navigation_clears_selection_and_revalidates_save_name() {
    let mut dialog = FileDialog::new().initial_directory(path(&["tmp"]));
    dialog.open(DialogMode::SaveFile, Ok(vec![file_entry(&["tmp", "out.txt"])]));

    dialog.set_file_name_input("out.txt".to_string());
    assert!(dialog.file_name_input_error().is_some());

    // The name no longer collides in the new directory.
    dialog.load_directory(&path(&["var"]), Ok(vec![]));
    assert_eq!(dialog.selected_item(), None);
    assert!(dialog.file_name_input_error().is_none());
    assert_eq!(dialog.file_name_input().as_str(), "out.txt");
}

#[test]
fn save_name_requires_current_directory() {
    // A dialog that was never opened has no current directory; the
    // validator reports the defensive error.
    let mut dialog = FileDialog::new();
    dialog.set_file_name_input("x".to_string());
    assert_eq!(
        dialog.file_name_input_error().as_deref(),
        Some("Currently not in a directory")
    );
}

#[test]
fn search_filters_listing_case_insensitively() {
    let mut dialog = FileDialog::new().initial_directory(path(&["tmp"]));
    dialog.open(
        DialogMode::SelectFile,
        Ok(vec![
            file_entry(&["tmp", "README.md"]),
            file_entry(&["tmp", "readout.csv"]),
            file_entry(&["tmp", "other.txt"]),
        ]),
    );

    dialog.set_search_value("read".to_string());
    let shown = dialog.filtered_directory_content();
    assert_eq!(
        shown,
        vec![file_entry(&["tmp", "README.md"]), file_entry(&["tmp", "readout.csv"])]
    );

    dialog.set_search_value(String::new());
    assert_eq!(dialog.filtered_directory_content().len(), 3);
}

#[test]
fn load_parent_walks_up_and_stops_at_root() {
    let mut dialog = FileDialog::new().initial_directory(path(&["home", "user"]));
    dialog.open(DialogMode::SelectDirectory, Ok(home_listing()));

    assert!(dialog.can_load_parent());
    dialog.load_parent(Ok(vec![dir_entry(&["home", "user"])]));
    assert_eq!(dialog.current_directory(), Some(path(&["home"])));

    dialog.load_parent(Ok(vec![]));
    assert_eq!(dialog.current_directory(), Some(path(&[])));

    assert!(!dialog.can_load_parent());
    dialog.load_parent(Ok(vec![]));
    assert_eq!(dialog.current_directory(), Some(path(&[])));
}

#[test]
fn reload_directory_replaces_listing_without_touching_history() {
    let mut dialog = FileDialog::new().initial_directory(path(&["tmp"]));
    dialog.open(DialogMode::SelectFile, Ok(vec![file_entry(&["tmp", "a.txt"])]));
    dialog.load_directory(&path(&["var"]), Ok(vec![]));
    dialog.load_previous_directory(Ok(vec![file_entry(&["tmp", "a.txt"])]));

    let fresh = vec![file_entry(&["tmp", "a.txt"]), file_entry(&["tmp", "b.txt"])];
    dialog.reload_directory(Ok(fresh.clone()));

    assert_eq!(dialog.directory_content(), &fresh);
    assert_eq!(dialog.current_directory(), Some(path(&["tmp"])));
    // History is untouched: forward is still available.
    assert!(dialog.can_load_next_directory());
}
