use file_dialog::CreateDirectoryDialog;
use file_dialog::CreateDirectoryResponse;
use file_dialog::DirEntry;
use file_dialog::EntryKind;
use file_dialog::FilePath;
use file_dialog::NavigationHistory;
use file_dialog::search::matches_search;

fn path(segments: &[&str]) -> FilePath {
    FilePath::new(segments.iter().map(|s| s.to_string()).collect())
}

#[test]
fn history_starts_empty() {
    let history = NavigationHistory::new();
    assert_eq!(history.current(), None);
    assert!(!history.can_go_back());
    assert!(!history.can_go_forward());
}

#[test]
fn history_navigate_back_forward() {
    let mut history = NavigationHistory::new();
    history.navigate_to(path(&["a"]));
    history.navigate_to(path(&["b"]));
    history.navigate_to(path(&["c"]));
    assert_eq!(history.current(), Some(&path(&["c"])));

    assert!(history.go_back());
    assert_eq!(history.current(), Some(&path(&["b"])));
    assert!(history.go_back());
    assert_eq!(history.current(), Some(&path(&["a"])));
    assert!(!history.go_back());
    assert_eq!(history.current(), Some(&path(&["a"])));

    assert!(history.go_forward());
    assert_eq!(history.current(), Some(&path(&["b"])));
    assert!(history.go_forward());
    assert_eq!(history.current(), Some(&path(&["c"])));
    assert!(!history.go_forward());
    assert_eq!(history.current(), Some(&path(&["c"])));
}

#[test]
fn history_navigate_to_current_is_noop() {
    let mut history = NavigationHistory::new();
    history.navigate_to(path(&["a"]));
    history.navigate_to(path(&["b"]));
    assert!(history.go_back());

    history.navigate_to(path(&["a"]));
    assert_eq!(history.current(), Some(&path(&["a"])));
    // The forward entry is still there: nothing was truncated or pushed.
    assert!(history.can_go_forward());
}

#[test]
fn history_navigation_discards_forward_entries() {
    let mut history = NavigationHistory::new();
    history.navigate_to(path(&["a"]));
    history.navigate_to(path(&["b"]));
    history.navigate_to(path(&["c"]));
    assert!(history.go_back());
    assert!(history.go_back());
    assert_eq!(history.current(), Some(&path(&["a"])));

    history.navigate_to(path(&["d"]));
    assert_eq!(history.current(), Some(&path(&["d"])));
    assert!(!history.can_go_forward());
    assert!(history.go_back());
    assert_eq!(history.current(), Some(&path(&["a"])));
    assert!(!history.can_go_back());
}

#[test]
fn path_operations() {
    let p = path(&["home", "user", "notes.txt"]);
    assert_eq!(p.file_name(), Some("notes.txt".to_string()));
    assert_eq!(p.parent(), Some(path(&["home", "user"])));
    assert!(p.equals(&path(&["home", "user", "notes.txt"])));
    assert!(!p.equals(&path(&["home", "user"])));
    assert!(!p.is_root());

    let root = FilePath::root();
    assert_eq!(root.file_name(), None);
    assert_eq!(root.parent(), None);
    assert!(root.is_root());
    assert_eq!(root.segments().len(), 0);

    assert_eq!(path(&["tmp"]).join("out.txt"), path(&["tmp", "out.txt"]));
    assert_eq!(root.join("tmp"), path(&["tmp"]));
}

#[test]
fn search_matching_is_case_insensitive_substring() {
    assert!(matches_search(&"README.md".to_string(), &"readme".to_string()));
    assert!(matches_search(&"readme".to_string(), &"EAD".to_string()));
    assert!(matches_search(&"anything".to_string(), &String::new()));
    assert!(!matches_search(&"README.md".to_string(), &"xyz".to_string()));
    assert!(!matches_search(&String::new(), &"a".to_string()));
}

#[test]
fn create_dialog_open_resets_and_validates() {
    let mut dialog = CreateDirectoryDialog::new();
    assert!(!dialog.is_open());
    assert!(dialog.error().is_none());

    dialog.open(path(&["tmp"]));
    assert!(dialog.is_open());
    assert_eq!(dialog.input().as_str(), "");
    assert_eq!(dialog.error().as_deref(), Some("Name of the folder can not be empty"));

    dialog.close();
    assert!(!dialog.is_open());
    assert_eq!(dialog.input().as_str(), "");
}

#[test]
fn create_dialog_validates_against_listing() {
    let mut dialog = CreateDirectoryDialog::new();
    dialog.open(path(&["tmp"]));
    let listing = vec![
        DirEntry::new(path(&["tmp", "existing"]), EntryKind::Directory),
        DirEntry::new(path(&["tmp", "file"]), EntryKind::File),
    ];

    assert_eq!(
        dialog.validate_input(&listing).as_deref(),
        Some("Name of the folder can not be empty")
    );

    dialog.set_input("existing".to_string(), &listing);
    assert_eq!(
        dialog.error().as_deref(),
        Some("A directory with the name already exists")
    );

    // A regular file of the same name is not rejected here.
    dialog.set_input("file".to_string(), &listing);
    assert!(dialog.error().is_none());

    dialog.set_input("fresh".to_string(), &listing);
    assert!(dialog.error().is_none());
}

#[test]
fn create_dialog_without_directory_reports_defensive_error() {
    // A commit on a dialog that was never opened has no parent directory
    // and hits the defensive branch.
    let mut dialog = CreateDirectoryDialog::new();
    let response = dialog.create_directory(Ok(()));
    assert_eq!(response.directory(), None);
    assert_eq!(dialog.error().as_deref(), Some("No directory given"));
}

#[test]
fn create_dialog_commit_outcomes() {
    let mut dialog = CreateDirectoryDialog::new();
    dialog.open(path(&["tmp"]));
    let listing: Vec<DirEntry> = vec![];
    dialog.set_input("newdir".to_string(), &listing);
    assert!(dialog.error().is_none());

    let failed = dialog.create_directory(Err("disk full".to_string()));
    assert_eq!(failed.directory(), None);
    assert!(dialog.is_open());
    assert_eq!(dialog.error().as_deref(), Some("Error: disk full"));

    let succeeded = dialog.create_directory(Ok(()));
    assert_eq!(succeeded.directory(), Some(path(&["tmp", "newdir"])));
    assert!(!dialog.is_open());
}

#[test]
fn create_directory_response_reports_its_path() {
    let created = CreateDirectoryResponse::new(&path(&["tmp", "newdir"]));
    assert_eq!(created.directory(), Some(path(&["tmp", "newdir"])));

    let empty = CreateDirectoryResponse::new_empty();
    assert_eq!(empty.directory(), None);
}
