use vstd::prelude::*;

use crate::create_directory::CreateDirectoryDialog;
use crate::create_directory::CreateDirectoryDialogView;
use crate::create_directory::err_create_failed;
use crate::create_directory::err_no_directory;
use crate::create_directory::spec_validate_create_name;
use crate::environment::DiskInfo;
use crate::environment::DiskInfoView;
use crate::environment::UserDirectories;
use crate::environment::UserDirectoriesView;
use crate::environment::fetch_system_disks;
use crate::environment::fetch_user_directories;
use crate::history::HistoryView;
use crate::history::NavigationHistory;
use crate::listing::DirEntry;
use crate::listing::DirEntryView;
use crate::listing::EntryKind;
use crate::listing::IoError;
use crate::listing::listing_contains;
use crate::listing::listing_contains_kind_named;
use crate::listing::listing_has_entry;
use crate::listing::listing_has_kind_named;
use crate::path::FilePath;
use crate::search::matches_search;
use crate::search::spec_matches_search;

verus! {

/// What the dialog is selecting: an existing file, an existing directory,
/// or a name to save a new file under. Fixed for one dialog session.
#[derive(Clone, Copy, Debug, PartialEq, Eq, Structural)]
pub enum DialogMode {
    SelectFile,
    SelectDirectory,
    SaveFile,
}

/// The lifecycle of one dialog session. `Selected` and `Cancelled` are
/// terminal for the session; a new `open` call resets to `Open`.
#[derive(Debug, PartialEq, Eq)]
pub enum DialogState {
    Open,
    Closed,
    Selected(FilePath),
    Cancelled,
}

/// The mathematical value of a lifecycle state.
pub enum DialogStateView {
    Open,
    Closed,
    Selected(Seq<Seq<char>>),
    Cancelled,
}

impl View for DialogState {
    type V = DialogStateView;

    open spec fn view(&self) -> DialogStateView {
        match self {
            DialogState::Open => DialogStateView::Open,
            DialogState::Closed => DialogStateView::Closed,
            DialogState::Selected(p) => DialogStateView::Selected(p@),
            DialogState::Cancelled => DialogStateView::Cancelled,
        }
    }
}

impl Clone for DialogState {
    fn clone(&self) -> (r: Self)
        ensures
            r@ == self@,
    {
        match self {
            DialogState::Open => DialogState::Open,
            DialogState::Closed => DialogState::Closed,
            DialogState::Selected(p) => DialogState::Selected(p.clone()),
            DialogState::Cancelled => DialogState::Cancelled,
        }
    }
}

/// The error shown while the typed file name is empty.
pub open spec fn err_file_name_empty() -> Seq<char> {
    "The file name cannot be empty"@
}

/// The error shown when a regular file of the typed name already exists in
/// the current directory.
pub open spec fn err_file_exists() -> Seq<char> {
    "A file with this name already exists"@
}

/// The defensive error shown while no directory is current; it signals a
/// broken caller rather than expected user-facing behavior.
pub open spec fn err_not_in_directory() -> Seq<char> {
    "Currently not in a directory"@
}

/// A typed file name is rejected while it is empty, while no directory is
/// current, and while the current listing holds a regular file of that
/// name. A directory of the same name is deliberately not rejected here.
pub open spec fn spec_validate_file_name(
    input: Seq<char>,
    has_directory: bool,
    listing: Seq<DirEntryView>,
) -> Option<Seq<char>> {
    if input.len() == 0 {
        Some(err_file_name_empty())
    } else if !has_directory {
        Some(err_not_in_directory())
    } else if listing_has_kind_named(listing, EntryKind::File, input) {
        Some(err_file_exists())
    } else {
        None
    }
}

/// The mathematical value of the whole dialog.
#[verifier::ext_equal]
pub struct FileDialogView {
    pub mode: DialogMode,
    pub state: DialogStateView,
    pub initial_directory: Seq<Seq<char>>,
    pub user_directories: Option<UserDirectoriesView>,
    pub system_disks: Seq<DiskInfoView>,
    pub history: HistoryView,
    pub directory_content: Seq<DirEntryView>,
    pub create_directory_dialog: CreateDirectoryDialogView,
    pub selected_item: Option<Seq<Seq<char>>>,
    pub file_name_input: Seq<char>,
    pub file_name_input_error: Option<Seq<char>>,
    pub scroll_to_selection: bool,
    pub search_value: Seq<char>,
}

impl FileDialogView {
    pub open spec fn wf(self) -> bool {
        self.history.wf()
    }
}

/// The listing outcome the caller handed in, as a mathematical value.
pub open spec fn listing_view_of(listing: Result<Vec<DirEntry>, IoError>) -> Result<
    Seq<DirEntryView>,
    Seq<char>,
> {
    match listing {
        Ok(l) => Ok(l.deep_view()),
        Err(e) => Err(e@),
    }
}

/// The selection is acceptable for the dialog's mode: in the select modes,
/// the selected item must be a listing entry of the right kind with a
/// display name; in SaveFile mode the typed name must carry no error (a
/// selection is optional there).
pub open spec fn spec_is_selection_valid(v: FileDialogView) -> bool {
    match v.selected_item {
        Some(sel) => match v.mode {
            DialogMode::SelectDirectory => sel.len() > 0 && listing_has_entry(
                v.directory_content,
                sel,
                EntryKind::Directory,
            ),
            DialogMode::SelectFile => sel.len() > 0 && listing_has_entry(
                v.directory_content,
                sel,
                EntryKind::File,
            ),
            DialogMode::SaveFile => v.file_name_input_error is None,
        },
        None => v.mode == DialogMode::SaveFile && v.file_name_input_error is None,
    }
}

/// How a freshly read listing lands in the dialog: the sub-dialog closes,
/// the listing is replaced wholesale, the view scrolls to the selection,
/// and in SaveFile mode the typed name is re-validated against the new
/// listing. A failed read changes nothing: the dialog stays open with the
/// stale listing.
pub open spec fn spec_apply_listing(
    v: FileDialogView,
    lr: Result<Seq<DirEntryView>, Seq<char>>,
) -> FileDialogView {
    match lr {
        Ok(entries) => FileDialogView {
            create_directory_dialog: v.create_directory_dialog.closed(),
            directory_content: entries,
            scroll_to_selection: true,
            file_name_input_error: if v.mode == DialogMode::SaveFile {
                spec_validate_file_name(v.file_name_input, v.history.current() is Some, entries)
            } else {
                v.file_name_input_error
            },
            ..v
        },
        Err(_) => v,
    }
}

/// How navigating to `path` lands in the dialog: re-navigating to the
/// current directory changes nothing at all; otherwise the history moves,
/// the sub-dialog closes, the selection clears, and the listing outcome is
/// applied.
pub open spec fn spec_after_navigate(
    v: FileDialogView,
    path: Seq<Seq<char>>,
    lr: Result<Seq<DirEntryView>, Seq<char>>,
) -> FileDialogView {
    if v.history.current() == Some(path) {
        v
    } else {
        spec_apply_listing(
            FileDialogView {
                history: v.history.navigate_to(path),
                selected_item: None,
                create_directory_dialog: v.create_directory_dialog.closed(),
                ..v
            },
            lr,
        )
    }
}

/// How one back step lands in the dialog: at the boundary nothing happens;
/// otherwise history moves back and the reload behaves as navigation does,
/// except that history gains no entry.
pub open spec fn spec_after_back(
    v: FileDialogView,
    lr: Result<Seq<DirEntryView>, Seq<char>>,
) -> FileDialogView {
    if !v.history.can_go_back() {
        v
    } else {
        spec_apply_listing(
            FileDialogView {
                history: v.history.go_back(),
                selected_item: None,
                create_directory_dialog: v.create_directory_dialog.closed(),
                ..v
            },
            lr,
        )
    }
}

/// How one forward step lands in the dialog; the mirror of
/// `spec_after_back`.
pub open spec fn spec_after_forward(
    v: FileDialogView,
    lr: Result<Seq<DirEntryView>, Seq<char>>,
) -> FileDialogView {
    if !v.history.can_go_forward() {
        v
    } else {
        spec_apply_listing(
            FileDialogView {
                history: v.history.go_forward(),
                selected_item: None,
                create_directory_dialog: v.create_directory_dialog.closed(),
                ..v
            },
            lr,
        )
    }
}

/// How reloading the current directory lands in the dialog: nothing
/// happens while no directory is current; otherwise the listing outcome is
/// applied without touching history or selection.
pub open spec fn spec_after_reload(
    v: FileDialogView,
    lr: Result<Seq<DirEntryView>, Seq<char>>,
) -> FileDialogView {
    if v.history.current() is None {
        v
    } else {
        spec_apply_listing(v, lr)
    }
}

/// How `open` lands in the dialog: all session state resets, the mode is
/// set, the lifecycle becomes Open, the initial directory becomes the
/// history's single entry, and its listing outcome is applied. A failed
/// initial read leaves the listing empty but keeps the dialog open. The
/// environment snapshots (`ud`, `disks`) are whatever the machine reported.
pub open spec fn spec_after_open(
    v: FileDialogView,
    mode: DialogMode,
    lr: Result<Seq<DirEntryView>, Seq<char>>,
    ud: Option<UserDirectoriesView>,
    disks: Seq<DiskInfoView>,
) -> FileDialogView {
    let base = FileDialogView {
        mode,
        state: DialogStateView::Open,
        initial_directory: v.initial_directory,
        user_directories: ud,
        system_disks: disks,
        history: HistoryView { stack: seq![v.initial_directory], offset: 0 },
        directory_content: Seq::<DirEntryView>::empty(),
        create_directory_dialog: CreateDirectoryDialogView::fresh(),
        selected_item: None,
        file_name_input: Seq::<char>::empty(),
        file_name_input_error: None,
        scroll_to_selection: false,
        search_value: Seq::<char>::empty(),
    };
    spec_apply_listing(base, lr)
}

/// How selecting `path` lands in the dialog: the item becomes selected;
/// in SaveFile mode, when the listing holds a regular file at that path,
/// the file's name seeds the typed name (proposing to overwrite it) and is
/// re-validated.
pub open spec fn spec_after_select(v: FileDialogView, path: Seq<Seq<char>>) -> FileDialogView {
    let sel = FileDialogView { selected_item: Some(path), ..v };
    if v.mode == DialogMode::SaveFile && listing_has_entry(
        v.directory_content,
        path,
        EntryKind::File,
    ) && path.len() > 0 {
        FileDialogView {
            file_name_input: path.last(),
            file_name_input_error: spec_validate_file_name(
                path.last(),
                v.history.current() is Some,
                v.directory_content,
            ),
            ..sel
        }
    } else {
        sel
    }
}

/// A listing entry is shown when it has a name and that name matches the
/// current search text case-insensitively.
pub open spec fn spec_entry_visible(e: DirEntryView, query: Seq<char>) -> bool {
    e.path.len() > 0 && spec_matches_search(e.path.last(), query)
}

/// The listing restricted to the entries the current search text shows,
/// in listing order.
pub open spec fn spec_visible_entries(l: Seq<DirEntryView>, query: Seq<char>) -> Seq<
    DirEntryView,
> {
    l.filter(|e: DirEntryView| spec_entry_visible(e, query))
}

/// The dialog controller: it owns the lifecycle state, the navigation
/// history, the current listing, the selection, the typed save name, and
/// the create-directory sub-dialog, and re-validates the selection on
/// every change. Every filesystem read or write happens outside: the
/// caller reads a directory (canonicalizing the path) or attempts a
/// creation, and hands the outcome in as a plain value.
pub struct FileDialog {
    mode: DialogMode,
    state: DialogState,
    initial_directory: FilePath,
    user_directories: Option<UserDirectories>,
    system_disks: Vec<DiskInfo>,
    history: NavigationHistory,
    directory_content: Vec<DirEntry>,
    create_directory_dialog: CreateDirectoryDialog,
    selected_item: Option<FilePath>,
    file_name_input: String,
    file_name_input_error: Option<String>,
    scroll_to_selection: bool,
    search_value: String,
}

impl View for FileDialog {
    type V = FileDialogView;

    closed spec fn view(&self) -> FileDialogView {
        FileDialogView {
            mode: self.mode,
            state: self.state@,
            initial_directory: self.initial_directory@,
            user_directories: self.user_directories.deep_view(),
            system_disks: self.system_disks.deep_view(),
            history: self.history@,
            directory_content: self.directory_content.deep_view(),
            create_directory_dialog: self.create_directory_dialog@,
            selected_item: self.selected_item.deep_view(),
            file_name_input: self.file_name_input@,
            file_name_input_error: self.file_name_input_error.deep_view(),
            scroll_to_selection: self.scroll_to_selection,
            search_value: self.search_value@,
        }
    }
}

impl FileDialog {
    /// A closed dialog in SelectDirectory mode. The starting directory is
    /// the filesystem root until `initial_directory` replaces it; the
    /// user-directory and disk shortcuts are whatever the machine reports.
    pub fn new() -> (r: Self)
        ensures
            r@.wf(),
            r@.mode == DialogMode::SelectDirectory,
            r@.state == DialogStateView::Closed,
            r@.initial_directory == Seq::<Seq<char>>::empty(),
            r@.history == (HistoryView { stack: Seq::<Seq<Seq<char>>>::empty(), offset: 0 }),
            r@.directory_content == Seq::<DirEntryView>::empty(),
            r@.create_directory_dialog == CreateDirectoryDialogView::fresh(),
            r@.selected_item is None,
            r@.file_name_input == Seq::<char>::empty(),
            r@.file_name_input_error is None,
            r@.scroll_to_selection == false,
            r@.search_value == Seq::<char>::empty(),
    {
        let r = FileDialog {
            mode: DialogMode::SelectDirectory,
            state: DialogState::Closed,
            initial_directory: FilePath::root(),
            user_directories: fetch_user_directories(),
            system_disks: fetch_system_disks(),
            history: NavigationHistory::new(),
            directory_content: Vec::new(),
            create_directory_dialog: CreateDirectoryDialog::new(),
            selected_item: None,
            file_name_input: String::new(),
            file_name_input_error: None,
            scroll_to_selection: false,
            search_value: String::new(),
        };
        proof {
            assert(r@.directory_content =~= Seq::<DirEntryView>::empty());
        }
        r
    }

    /// Replaces the directory that `open` starts in.
    pub fn initial_directory(self, directory: FilePath) -> (r: Self)
        ensures
            r@ == (FileDialogView { initial_directory: directory@, ..self@ }),
    {
        FileDialog { initial_directory: directory, ..self }
    }

    /// The directory that `open` starts in, for the caller that reads its
    /// listing before opening.
    pub fn initial_directory_path(&self) -> (r: &FilePath)
        ensures
            r@ == self@.initial_directory,
    {
        &self.initial_directory
    }

    pub fn mode(&self) -> (r: DialogMode)
        ensures
            r == self@.mode,
    {
        self.mode
    }

    pub fn state(&self) -> (r: DialogState)
        ensures
            r@ == self@.state,
    {
        self.state.clone()
    }

    /// Resets every piece of session state and refreshes the environment
    /// snapshots; the mode and the configured initial directory stay.
    fn reset(&mut self)
        ensures
            final(self)@ == (FileDialogView {
                state: DialogStateView::Closed,
                user_directories: final(self)@.user_directories,
                system_disks: final(self)@.system_disks,
                history: HistoryView { stack: Seq::<Seq<Seq<char>>>::empty(), offset: 0 },
                directory_content: Seq::<DirEntryView>::empty(),
                create_directory_dialog: CreateDirectoryDialogView::fresh(),
                selected_item: None,
                file_name_input: Seq::<char>::empty(),
                file_name_input_error: None,
                scroll_to_selection: false,
                search_value: Seq::<char>::empty(),
                ..old(self)@
            }),
            final(self)@.wf(),
    {
        self.state = DialogState::Closed;
        self.user_directories = fetch_user_directories();
        self.system_disks = fetch_system_disks();
        self.history = NavigationHistory::new();
        self.directory_content = Vec::new();
        self.create_directory_dialog = CreateDirectoryDialog::new();
        self.selected_item = None;
        self.file_name_input = String::new();
        self.file_name_input_error = None;
        self.scroll_to_selection = false;
        self.search_value = String::new();
        proof {
            assert(self.directory_content.deep_view() =~= Seq::<DirEntryView>::empty());
        }
    }

    /// Opens a new dialog session in `mode`. The caller reads the
    /// configured initial directory and hands the outcome in.
    pub fn open(&mut self, mode: DialogMode, listing: Result<Vec<DirEntry>, IoError>)
        requires
            old(self)@.wf(),
        ensures
            final(self)@.wf(),
            final(self)@ == spec_after_open(
                old(self)@,
                mode,
                listing_view_of(listing),
                final(self)@.user_directories,
                final(self)@.system_disks,
            ),
    {
        let ghost lr = listing_view_of(listing);
        self.reset();
        self.mode = mode;
        self.state = DialogState::Open;
        let initial = self.initial_directory.clone();
        self.load_directory(&initial, listing);
        proof {
            assert(self@ =~~= spec_after_open(
                old(self)@,
                mode,
                lr,
                self@.user_directories,
                self@.system_disks,
            ));
        }
    }

    /// Opens a session for picking an existing directory.
    pub fn select_directory(&mut self, listing: Result<Vec<DirEntry>, IoError>)
        requires
            old(self)@.wf(),
        ensures
            final(self)@.wf(),
            final(self)@ == spec_after_open(
                old(self)@,
                DialogMode::SelectDirectory,
                listing_view_of(listing),
                final(self)@.user_directories,
                final(self)@.system_disks,
            ),
    {
        self.open(DialogMode::SelectDirectory, listing);
    }

    /// Opens a session for picking an existing file.
    pub fn select_file(&mut self, listing: Result<Vec<DirEntry>, IoError>)
        requires
            old(self)@.wf(),
        ensures
            final(self)@.wf(),
            final(self)@ == spec_after_open(
                old(self)@,
                DialogMode::SelectFile,
                listing_view_of(listing),
                final(self)@.user_directories,
                final(self)@.system_disks,
            ),
    {
        self.open(DialogMode::SelectFile, listing);
    }

    /// Opens a session for choosing a file name to save under.
    pub fn save_file(&mut self, listing: Result<Vec<DirEntry>, IoError>)
        requires
            old(self)@.wf(),
        ensures
            final(self)@.wf(),
            final(self)@ == spec_after_open(
                old(self)@,
                DialogMode::SaveFile,
                listing_view_of(listing),
                final(self)@.user_directories,
                final(self)@.system_disks,
            ),
    {
        self.open(DialogMode::SaveFile, listing);
    }

    /// Visits `path`, whose listing the caller has read. Re-navigating to
    /// the already-current directory changes nothing at all; `reload_directory`
    /// forces a re-read of the same directory instead.
    pub fn load_directory(&mut self, path: &FilePath, listing: Result<Vec<DirEntry>, IoError>)
        requires
            old(self)@.wf(),
        ensures
            final(self)@.wf(),
            final(self)@ == spec_after_navigate(old(self)@, path@, listing_view_of(listing)),
            old(self)@.history.current() == Some(path@) ==> final(self)@ == old(self)@,
    {
        let ghost lr = listing_view_of(listing);
        let is_same = match self.history.current() {
            Some(c) => c.equals(path),
            None => false,
        };
        if is_same {
            return ;
        }
        self.history.navigate_to(path.clone());
        self.create_directory_dialog.close();
        self.selected_item = None;
        self.load_directory_content(listing);
        proof {
            assert(self@ =~~= spec_after_navigate(old(self)@, path@, lr));
        }
    }

    /// Steps back to the previously visited directory, whose listing the
    /// caller has read (`previous_directory` names it); a no-op at the
    /// history boundary.
    pub fn load_previous_directory(&mut self, listing: Result<Vec<DirEntry>, IoError>)
        requires
            old(self)@.wf(),
        ensures
            final(self)@.wf(),
            final(self)@ == spec_after_back(old(self)@, listing_view_of(listing)),
    {
        let ghost lr = listing_view_of(listing);
        if self.history.go_back() {
            self.create_directory_dialog.close();
            self.selected_item = None;
            self.load_directory_content(listing);
        }
        proof {
            assert(self@ =~~= spec_after_back(old(self)@, lr));
        }
    }

    /// Steps forward to the next directory in history, whose listing the
    /// caller has read (`next_directory` names it); a no-op at the history
    /// boundary.
    pub fn load_next_directory(&mut self, listing: Result<Vec<DirEntry>, IoError>)
        requires
            old(self)@.wf(),
        ensures
            final(self)@.wf(),
            final(self)@ == spec_after_forward(old(self)@, listing_view_of(listing)),
    {
        let ghost lr = listing_view_of(listing);
        if self.history.go_forward() {
            self.create_directory_dialog.close();
            self.selected_item = None;
            self.load_directory_content(listing);
        }
        proof {
            assert(self@ =~~= spec_after_forward(old(self)@, lr));
        }
    }

    /// Visits the parent of the current directory; a no-op at the root or
    /// while no directory is current.
    pub fn load_parent(&mut self, listing: Result<Vec<DirEntry>, IoError>)
        requires
            old(self)@.wf(),
        ensures
            final(self)@.wf(),
            match old(self)@.history.current() {
                Some(cur) => if cur.len() > 0 {
                    final(self)@ == spec_after_navigate(
                        old(self)@,
                        cur.drop_last(),
                        listing_view_of(listing),
                    )
                } else {
                    final(self)@ == old(self)@
                },
                None => final(self)@ == old(self)@,
            },
    {
        let parent = match self.history.current() {
            Some(c) => c.parent(),
            None => None,
        };
        match parent {
            Some(p) => self.load_directory(&p, listing),
            None => {},
        }
    }

    /// Replaces the current directory's listing with a fresh read, without
    /// touching history or selection; a no-op while no directory is
    /// current.
    pub fn reload_directory(&mut self, listing: Result<Vec<DirEntry>, IoError>)
        requires
            old(self)@.wf(),
        ensures
            final(self)@.wf(),
            final(self)@ == spec_after_reload(old(self)@, listing_view_of(listing)),
    {
        let has_current = self.history.current().is_some();
        if has_current {
            self.load_directory_content(listing);
        }
    }

    /// Re-reads the current directory and refreshes the user-directory and
    /// disk shortcuts from the environment.
    pub fn refresh(&mut self, listing: Result<Vec<DirEntry>, IoError>)
        requires
            old(self)@.wf(),
        ensures
            final(self)@.wf(),
            final(self)@ == (FileDialogView {
                user_directories: final(self)@.user_directories,
                system_disks: final(self)@.system_disks,
                ..spec_after_reload(old(self)@, listing_view_of(listing))
            }),
    {
        let ghost lr = listing_view_of(listing);
        self.user_directories = fetch_user_directories();
        self.system_disks = fetch_system_disks();
        self.reload_directory(listing);
        proof {
            assert(self@ =~~= (FileDialogView {
                user_directories: self@.user_directories,
                system_disks: self@.system_disks,
                ..spec_after_reload(old(self)@, lr)
            }));
        }
    }

    /// Lands a freshly read listing: closes the sub-dialog, replaces the
    /// listing, scrolls to the selection, and re-validates the typed name
    /// in SaveFile mode. A failed read changes nothing.
    fn load_directory_content(&mut self, listing: Result<Vec<DirEntry>, IoError>)
        requires
            old(self)@.wf(),
        ensures
            final(self)@.wf(),
            final(self)@ == spec_apply_listing(old(self)@, listing_view_of(listing)),
    {
        let ghost lr = listing_view_of(listing);
        match listing {
            Ok(entries) => {
                self.create_directory_dialog.close();
                self.directory_content = entries;
                self.scroll_to_selection = true;
                if self.mode == DialogMode::SaveFile {
                    self.file_name_input_error = self.validate_file_name_input();
                }
                proof {
                    assert(self@ =~~= spec_apply_listing(old(self)@, lr));
                }
            },
            Err(_) => {},
        }
    }

    /// The directory whose contents populate the current listing.
    pub fn current_directory(&self) -> (r: Option<FilePath>)
        requires
            self@.wf(),
        ensures
            match r {
                Some(p) => self@.history.current() == Some(p@),
                None => self@.history.current() is None,
            },
    {
        match self.history.current() {
            Some(c) => Some(c.clone()),
            None => None,
        }
    }

    /// The directory one back step away, if one is available; its listing
    /// is what `load_previous_directory` expects.
    pub fn previous_directory(&self) -> (r: Option<FilePath>)
        requires
            self@.wf(),
        ensures
            match r {
                Some(p) => self@.history.go_back().current() == Some(p@)
                    && self@.history.can_go_back(),
                None => !self@.history.can_go_back(),
            },
    {
        let mut peek = self.history.clone_history();
        if peek.go_back() {
            match peek.current() {
                Some(c) => Some(c.clone()),
                None => None,
            }
        } else {
            None
        }
    }

    /// The directory one forward step away, if one is available; its
    /// listing is what `load_next_directory` expects.
    pub fn next_directory(&self) -> (r: Option<FilePath>)
        requires
            self@.wf(),
        ensures
            match r {
                Some(p) => self@.history.go_forward().current() == Some(p@)
                    && self@.history.can_go_forward(),
                None => !self@.history.can_go_forward(),
            },
    {
        let mut peek = self.history.clone_history();
        if peek.go_forward() {
            match peek.current() {
                Some(c) => Some(c.clone()),
                None => None,
            }
        } else {
            None
        }
    }

    pub fn can_load_previous_directory(&self) -> (r: bool)
        ensures
            r == self@.history.can_go_back(),
    {
        self.history.can_go_back()
    }

    pub fn can_load_next_directory(&self) -> (r: bool)
        ensures
            r == self@.history.can_go_forward(),
    {
        self.history.can_go_forward()
    }

    pub fn can_load_parent(&self) -> (r: bool)
        requires
            self@.wf(),
        ensures
            r == match self@.history.current() {
                Some(cur) => cur.len() > 0,
                None => false,
            },
    {
        match self.history.current() {
            Some(c) => !c.is_root(),
            None => false,
        }
    }

    /// The current listing, unfiltered, in enumeration order (no order is
    /// imposed on it).
    pub fn directory_content(&self) -> (r: &Vec<DirEntry>)
        ensures
            r.deep_view() == self@.directory_content,
    {
        &self.directory_content
    }

    /// The listing entries the current search text shows, in listing
    /// order: the entries with a name matching the search text
    /// case-insensitively.
    pub fn filtered_directory_content(&self) -> (r: Vec<DirEntry>)
        ensures
            r.deep_view() == spec_visible_entries(self@.directory_content, self@.search_value),
    {
        let ghost l = self@.directory_content;
        let ghost q = self@.search_value;
        let mut r: Vec<DirEntry> = Vec::new();
        let mut i: usize = 0;
        proof {
            assert(r.deep_view() =~= spec_visible_entries(l.take(0), q)) by {
                reveal_with_fuel(Seq::filter, 2);
            }
        }
        while i < self.directory_content.len()
            invariant
                i <= self.directory_content.len(),
                l == self@.directory_content,
                q == self@.search_value,
                r.deep_view() == spec_visible_entries(l.take(i as int), q),
            decreases self.directory_content.len() - i,
    {
            let entry = &self.directory_content[i];
            let visible = match entry.path.file_name() {
                Some(name) => matches_search(&name, &self.search_value),
                None => false,
            };
            if visible {
                r.push(entry.clone());
            }
            proof {
                reveal_with_fuel(Seq::filter, 2);
                assert(l.take(i + 1).drop_last() =~= l.take(i as int));
                assert(l.take(i + 1).last() == l[i as int]);
                assert(r.deep_view() =~= spec_visible_entries(l.take(i + 1), q));
            }
            i += 1;
        }
        proof {
            assert(l.take(l.len() as int) =~= l);
        }
        r
    }

    /// The name of the file or directory `file` points at, or none for the
    /// root.
    pub fn get_file_name(&self, file: &FilePath) -> (r: Option<String>)
        ensures
            match r {
                Some(name) => file@.len() > 0 && name@ == file@.last(),
                None => file@.len() == 0,
            },
    {
        file.file_name()
    }

    /// The currently selected item, if any.
    pub fn selected_item(&self) -> (r: Option<&FilePath>)
        ensures
            match r {
                Some(p) => self@.selected_item == Some(p@),
                None => self@.selected_item is None,
            },
    {
        match &self.selected_item {
            Some(p) => Some(p),
            None => None,
        }
    }

    /// Selects `path`. In SaveFile mode, selecting a regular file of the
    /// current listing proposes overwriting it: the file's name seeds the
    /// typed name and is re-validated.
    pub fn select_item(&mut self, path: &FilePath)
        requires
            old(self)@.wf(),
        ensures
            final(self)@.wf(),
            final(self)@ == spec_after_select(old(self)@, path@),
    {
        self.selected_item = Some(path.clone());
        if self.mode == DialogMode::SaveFile && listing_contains(
            &self.directory_content,
            path,
            EntryKind::File,
        ) {
            if let Some(name) = path.file_name() {
                self.file_name_input = name;
                self.file_name_input_error = self.validate_file_name_input();
            }
        }
        proof {
            assert(self@ =~~= spec_after_select(old(self)@, path@));
        }
    }

    /// The typed save-file name.
    pub fn file_name_input(&self) -> (r: &String)
        ensures
            r@ == self@.file_name_input,
    {
        &self.file_name_input
    }

    /// The current save-name error, if any.
    pub fn file_name_input_error(&self) -> (r: &Option<String>)
        ensures
            r.deep_view() == self@.file_name_input_error,
    {
        &self.file_name_input_error
    }

    /// Replaces the typed save-file name and re-validates it.
    pub fn set_file_name_input(&mut self, text: String)
        requires
            old(self)@.wf(),
        ensures
            final(self)@.wf(),
            final(self)@ == (FileDialogView {
                file_name_input: text@,
                file_name_input_error: spec_validate_file_name(
                    text@,
                    old(self)@.history.current() is Some,
                    old(self)@.directory_content,
                ),
                ..old(self)@
            }),
    {
        self.file_name_input = text;
        self.file_name_input_error = self.validate_file_name_input();
    }

    /// Validates the typed save-file name against the current listing, as
    /// `spec_validate_file_name` describes.
    pub fn validate_file_name_input(&self) -> (r: Option<String>)
        requires
            self@.wf(),
        ensures
            r.deep_view() == spec_validate_file_name(
                self@.file_name_input,
                self@.history.current() is Some,
                self@.directory_content,
            ),
    {
        if self.file_name_input.as_str().is_empty() {
            return Some("The file name cannot be empty".to_owned());
        }
        match self.history.current() {
            Some(_) => {
                if listing_contains_kind_named(
                    &self.directory_content,
                    EntryKind::File,
                    &self.file_name_input,
                ) {
                    Some("A file with this name already exists".to_owned())
                } else {
                    None
                }
            },
            None => Some("Currently not in a directory".to_owned()),
        }
    }

    /// Whether the current selection is acceptable, as
    /// `spec_is_selection_valid` describes.
    pub fn is_selection_valid(&self) -> (r: bool)
        ensures
            r == spec_is_selection_valid(self@),
    {
        match &self.selected_item {
            Some(selection) => match self.mode {
                DialogMode::SelectDirectory => !selection.is_root() && listing_contains(
                    &self.directory_content,
                    selection,
                    EntryKind::Directory,
                ),
                DialogMode::SelectFile => !selection.is_root() && listing_contains(
                    &self.directory_content,
                    selection,
                    EntryKind::File,
                ),
                DialogMode::SaveFile => self.file_name_input_error.is_none(),
            },
            None => self.mode == DialogMode::SaveFile && self.file_name_input_error.is_none(),
        }
    }

    /// Ends the session with `selected_item` as the result.
    fn finish(&mut self, selected_item: FilePath)
        ensures
            final(self)@ == (FileDialogView {
                state: DialogStateView::Selected(selected_item@),
                ..old(self)@
            }),
    {
        self.state = DialogState::Selected(selected_item);
    }

    /// Ends the session as cancelled.
    pub fn cancel(&mut self)
        ensures
            final(self)@ == (FileDialogView { state: DialogStateView::Cancelled, ..old(self)@ }),
    {
        self.state = DialogState::Cancelled;
    }

    /// Confirms the selection: in the select modes the session ends with
    /// the selected item; in SaveFile mode it ends with the typed name
    /// inside the current directory. An invalid selection is rejected and
    /// nothing changes.
    pub fn confirm(&mut self)
        requires
            old(self)@.wf(),
        ensures
            final(self)@.wf(),
            !spec_is_selection_valid(old(self)@) ==> final(self)@ == old(self)@,
            spec_is_selection_valid(old(self)@) ==> match old(self)@.mode {
                DialogMode::SelectDirectory | DialogMode::SelectFile => final(self)@
                    == (FileDialogView {
                    state: DialogStateView::Selected(old(self)@.selected_item.unwrap()),
                    ..old(self)@
                }),
                DialogMode::SaveFile => match old(self)@.history.current() {
                    Some(cur) => final(self)@ == (FileDialogView {
                        state: DialogStateView::Selected(cur.push(old(self)@.file_name_input)),
                        ..old(self)@
                    }),
                    None => final(self)@ == old(self)@,
                },
            },
    {
        if !self.is_selection_valid() {
            return ;
        }
        match self.mode {
            DialogMode::SelectDirectory | DialogMode::SelectFile => {
                let selection = match &self.selected_item {
                    Some(s) => Some(s.clone()),
                    None => None,
                };
                if let Some(s) = selection {
                    self.finish(s);
                }
            },
            DialogMode::SaveFile => {
                let current = match self.history.current() {
                    Some(c) => Some(c.clone()),
                    None => None,
                };
                if let Some(path) = current {
                    let full = path.join(self.file_name_input.as_str());
                    self.finish(full);
                }
            },
        }
    }

    /// The create-directory sub-dialog, for display.
    pub fn create_directory_dialog(&self) -> (r: &CreateDirectoryDialog)
        ensures
            r@ == self@.create_directory_dialog,
    {
        &self.create_directory_dialog
    }

    /// Opens the create-directory sub-dialog at the current directory; a
    /// no-op while it is already open or while no directory is current.
    pub fn open_create_directory(&mut self)
        requires
            old(self)@.wf(),
        ensures
            final(self)@.wf(),
            if old(self)@.create_directory_dialog.open || old(self)@.history.current() is None {
                final(self)@ == old(self)@
            } else {
                final(self)@ == (FileDialogView {
                    create_directory_dialog: CreateDirectoryDialogView::opened(
                        old(self)@.history.current().unwrap(),
                    ),
                    ..old(self)@
                })
            },
    {
        if self.create_directory_dialog.is_open() {
            return ;
        }
        let current = match self.history.current() {
            Some(c) => Some(c.clone()),
            None => None,
        };
        if let Some(c) = current {
            self.create_directory_dialog.open(c);
        }
    }

    /// Replaces the sub-dialog's typed folder name and re-validates it
    /// against the current listing; a no-op while the sub-dialog is closed.
    pub fn set_create_directory_name(&mut self, text: String)
        ensures
            !old(self)@.create_directory_dialog.open ==> final(self)@ == old(self)@,
            old(self)@.create_directory_dialog.open ==> final(self)@ == (FileDialogView {
                create_directory_dialog: (CreateDirectoryDialogView {
                    input: text@,
                    error: spec_validate_create_name(
                        text@,
                        old(self)@.create_directory_dialog.directory,
                        old(self)@.directory_content,
                    ),
                    ..old(self)@.create_directory_dialog
                }),
                ..old(self)@
            }),
    {
        self.create_directory_dialog.set_input(text, &self.directory_content);
        proof {
            assert(self@ =~~= if !old(self)@.create_directory_dialog.open {
                old(self)@
            } else {
                FileDialogView {
                    create_directory_dialog: (CreateDirectoryDialogView {
                        input: text@,
                        error: spec_validate_create_name(
                            text@,
                            old(self)@.create_directory_dialog.directory,
                            old(self)@.directory_content,
                        ),
                        ..old(self)@.create_directory_dialog
                    }),
                    ..old(self)@
                }
            });
        }
    }

    /// The sub-dialog commit is ready: it is open, its typed name carries
    /// no error, and it has a parent directory.
    pub open spec fn spec_commit_ready(v: FileDialogView) -> bool {
        &&& v.create_directory_dialog.open
        &&& v.create_directory_dialog.error is None
        &&& v.create_directory_dialog.directory is Some
    }

    /// The directory the caller should attempt to create before calling
    /// `commit_create_directory`: the typed name inside the sub-dialog's
    /// parent, available exactly while the commit is ready.
    pub fn create_directory_target(&self) -> (r: Option<FilePath>)
        ensures
            match r {
                Some(p) => Self::spec_commit_ready(self@) && p@
                    == self@.create_directory_dialog.directory.unwrap().push(
                    self@.create_directory_dialog.input,
                ),
                None => !Self::spec_commit_ready(self@),
            },
    {
        if self.create_directory_dialog.is_open() && !self.create_directory_dialog.has_error() {
            self.create_directory_dialog.pending_path()
        } else {
            None
        }
    }

    /// Applies the outcome of the caller's attempt to create the directory
    /// at `create_directory_target`. On success the sub-dialog closes, the
    /// new directory joins the listing and becomes the selection; on
    /// failure the filesystem's message becomes the sub-dialog's field
    /// error and it stays open. A commit that is not ready is rejected and
    /// nothing changes.
    pub fn commit_create_directory(&mut self, outcome: Result<(), String>)
        requires
            old(self)@.wf(),
        ensures
            final(self)@.wf(),
            !(old(self)@.create_directory_dialog.open && old(
                self,
            )@.create_directory_dialog.error is None) ==> final(self)@ == old(self)@,
            (old(self)@.create_directory_dialog.open && old(
                self,
            )@.create_directory_dialog.error is None) ==> {
                if old(self)@.create_directory_dialog.directory is Some {
                    let target = old(self)@.create_directory_dialog.directory.unwrap().push(
                        old(self)@.create_directory_dialog.input,
                    );
                    match outcome {
                        Ok(_) => final(self)@ == spec_after_select(
                            (FileDialogView {
                                create_directory_dialog: old(
                                    self,
                                )@.create_directory_dialog.closed(),
                                directory_content: old(self)@.directory_content.push(
                                    (DirEntryView { path: target, kind: EntryKind::Directory }),
                                ),
                                ..old(self)@
                            }),
                            target,
                        ),
                        Err(e) => final(self)@ == (FileDialogView {
                            create_directory_dialog: (CreateDirectoryDialogView {
                                error: Some(err_create_failed(e@)),
                                ..old(self)@.create_directory_dialog
                            }),
                            ..old(self)@
                        }),
                    }
                } else {
                    final(self)@ == (FileDialogView {
                        create_directory_dialog: (CreateDirectoryDialogView {
                            error: Some(err_no_directory()),
                            ..old(self)@.create_directory_dialog
                        }),
                        ..old(self)@
                    })
                }
            },
    {
        if !self.create_directory_dialog.is_open() || self.create_directory_dialog.has_error() {
            return ;
        }
        let response = self.create_directory_dialog.create_directory(outcome);
        if let Some(dir) = response.directory() {
            let entry = DirEntry::new(dir.clone(), EntryKind::Directory);
            self.directory_content.push(entry);
            proof {
                assert(self.directory_content.deep_view() =~= old(
                    self,
                )@.directory_content.push(
                    (DirEntryView { path: dir@, kind: EntryKind::Directory }),
                ));
            }
            self.select_item(&dir);
        }
    }

    /// Closes the create-directory sub-dialog, discarding the typed name.
    pub fn cancel_create_directory(&mut self)
        ensures
            final(self)@ == (FileDialogView {
                create_directory_dialog: old(self)@.create_directory_dialog.closed(),
                ..old(self)@
            }),
    {
        self.create_directory_dialog.close();
    }

    /// The current search text.
    pub fn search_value(&self) -> (r: &String)
        ensures
            r@ == self@.search_value,
    {
        &self.search_value
    }

    /// Replaces the search text that `filtered_directory_content` applies.
    pub fn set_search_value(&mut self, text: String)
        ensures
            final(self)@ == (FileDialogView { search_value: text@, ..old(self)@ }),
    {
        self.search_value = text;
    }

    /// Whether the next redraw should scroll the listing to the selection.
    pub fn scroll_to_selection(&self) -> (r: bool)
        ensures
            r == self@.scroll_to_selection,
    {
        self.scroll_to_selection
    }

    /// Acknowledges the scroll request once the view has performed it.
    pub fn clear_scroll_to_selection(&mut self)
        ensures
            final(self)@ == (FileDialogView { scroll_to_selection: false, ..old(self)@ }),
    {
        self.scroll_to_selection = false;
    }

    /// The user-directory shortcuts last read from the environment.
    pub fn user_directories(&self) -> (r: &Option<UserDirectories>)
        ensures
            r.deep_view() == self@.user_directories,
    {
        &self.user_directories
    }

    /// The disk shortcuts last read from the environment.
    pub fn system_disks(&self) -> (r: &Vec<DiskInfo>)
        ensures
            r.deep_view() == self@.system_disks,
    {
        &self.system_disks
    }
}

impl Default for FileDialog {
    /// The same closed SelectDirectory dialog that `new` builds.
    fn default() -> (r: Self)
        ensures
            r@.wf(),
            r@.mode == DialogMode::SelectDirectory,
            r@.state == DialogStateView::Closed,
            r@.initial_directory == Seq::<Seq<char>>::empty(),
    {
        Self::new()
    }
}

/// Law: when a back step is available, stepping back and then forward —
/// whatever listings the two reloads produced — restores the current
/// directory, provided no navigation happened in between. (When no back
/// step is available, back stays put but forward may still move, so the
/// law holds only where back succeeds: from a two-entry history viewed at
/// its older entry, back is a no-op and forward moves to the newer one.)
pub proof fn lemma_dialog_back_then_forward(
    v: FileDialogView,
    lr1: Result<Seq<DirEntryView>, Seq<char>>,
    lr2: Result<Seq<DirEntryView>, Seq<char>>,
)
    requires
        v.wf(),
        v.history.can_go_back(),
    ensures
        spec_after_forward(spec_after_back(v, lr1), lr2).history.current() == v.history.current(),
{
    crate::history::lemma_back_then_forward(v.history);
}

/// Law: with no selected item, the selection is valid exactly in SaveFile
/// mode with no save-name error; in the select modes it is always invalid.
pub proof fn lemma_selection_invalid_without_item(v: FileDialogView)
    requires
        v.selected_item is None,
    ensures
        spec_is_selection_valid(v) <==> (v.mode == DialogMode::SaveFile
            && v.file_name_input_error is None),
{
}

/// Law: an empty save name is always rejected, whatever the directory and
/// listing; a non-empty name, checked while a directory is current, is
/// rejected exactly when the listing holds a regular file of that name.
pub proof fn lemma_validate_file_name(
    input: Seq<char>,
    has_directory: bool,
    listing: Seq<DirEntryView>,
)
    ensures
        input.len() == 0 ==> spec_validate_file_name(input, has_directory, listing) is Some,
        input.len() > 0 && has_directory ==> (spec_validate_file_name(
            input,
            has_directory,
            listing,
        ) is Some <==> listing_has_kind_named(listing, EntryKind::File, input)),
{
}

} // verus!
