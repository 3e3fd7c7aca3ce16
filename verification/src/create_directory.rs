use vstd::prelude::*;

use crate::listing::DirEntry;
use crate::listing::DirEntryView;
use crate::listing::EntryKind;
use crate::listing::listing_contains_kind_named;
use crate::listing::listing_has_kind_named;
use crate::path::FilePath;

verus! {

/// The error shown while the typed folder name is empty.
pub open spec fn err_folder_name_empty() -> Seq<char> {
    "Name of the folder can not be empty"@
}

/// The error shown when a directory of the typed name already exists.
pub open spec fn err_directory_exists() -> Seq<char> {
    "A directory with the name already exists"@
}

/// The defensive error shown when the sub-dialog has no parent directory;
/// it cannot arise through the dialog's own commands, which only open the
/// sub-dialog at an existing current directory.
pub open spec fn err_no_directory() -> Seq<char> {
    "No directory given"@
}

/// The error shown when the filesystem refused to create the directory,
/// carrying the reported detail.
pub open spec fn err_create_failed(detail: Seq<char>) -> Seq<char> {
    "Error: "@ + detail
}

/// A typed folder name is rejected while it is empty, while the sub-dialog
/// has no parent directory, and while the parent's listing already holds a
/// directory of that name. Existing regular files of the same name are
/// deliberately not rejected here; the filesystem reports them on commit.
pub open spec fn spec_validate_create_name(
    input: Seq<char>,
    directory: Option<Seq<Seq<char>>>,
    listing: Seq<DirEntryView>,
) -> Option<Seq<char>> {
    if input.len() == 0 {
        Some(err_folder_name_empty())
    } else if directory is None {
        Some(err_no_directory())
    } else if listing_has_kind_named(listing, EntryKind::Directory, input) {
        Some(err_directory_exists())
    } else {
        None
    }
}

/// What one commit attempt of the create-directory sub-dialog produced:
/// the path of the directory that was created, or nothing.
pub struct CreateDirectoryResponse {
    directory: Option<FilePath>,
}

impl View for CreateDirectoryResponse {
    type V = Option<Seq<Seq<char>>>;

    closed spec fn view(&self) -> Option<Seq<Seq<char>>> {
        self.directory.deep_view()
    }
}

impl CreateDirectoryResponse {
    /// The response reporting that `directory` was created.
    pub fn new(directory: &FilePath) -> (r: Self)
        ensures
            r@ == Some(directory@),
    {
        Self { directory: Some(directory.clone()) }
    }

    /// The response reporting that nothing was created.
    pub fn new_empty() -> (r: Self)
        ensures
            r@ is None,
    {
        Self { directory: None }
    }

    /// The created directory, if one was created.
    pub fn directory(&self) -> (r: Option<FilePath>)
        ensures
            r.deep_view() == self@,
    {
        match &self.directory {
            Some(d) => Some(d.clone()),
            None => None,
        }
    }
}

/// The mathematical value of the create-directory sub-dialog.
#[verifier::ext_equal]
pub struct CreateDirectoryDialogView {
    pub open: bool,
    pub directory: Option<Seq<Seq<char>>>,
    pub input: Seq<char>,
    pub error: Option<Seq<char>>,
}

impl CreateDirectoryDialogView {
    /// The state `close` and `reset` leave behind: closed, no parent
    /// directory, empty input. The error text is left as it was; it is
    /// never shown while closed, and the next open recomputes it.
    pub open spec fn closed(self) -> CreateDirectoryDialogView {
        CreateDirectoryDialogView {
            open: false,
            directory: None,
            input: Seq::<char>::empty(),
            error: self.error,
        }
    }

    /// A sub-dialog that has never been opened.
    pub open spec fn fresh() -> CreateDirectoryDialogView {
        CreateDirectoryDialogView {
            open: false,
            directory: None,
            input: Seq::<char>::empty(),
            error: None,
        }
    }

    /// The state right after opening at `directory`: the input is reset and
    /// immediately validated, so the empty-name error is present before any
    /// edit.
    pub open spec fn opened(directory: Seq<Seq<char>>) -> CreateDirectoryDialogView {
        CreateDirectoryDialogView {
            open: true,
            directory: Some(directory),
            input: Seq::<char>::empty(),
            error: Some(err_folder_name_empty()),
        }
    }
}

/// A self-contained nested state machine for naming and creating one new
/// directory inside a fixed parent. It validates the typed name against the
/// parent's current listing; the filesystem work of actually creating the
/// directory is performed by the caller, whose outcome is handed to
/// `create_directory`.
pub struct CreateDirectoryDialog {
    open: bool,
    directory: Option<FilePath>,
    input: String,
    error: Option<String>,
}

impl View for CreateDirectoryDialog {
    type V = CreateDirectoryDialogView;

    closed spec fn view(&self) -> CreateDirectoryDialogView {
        CreateDirectoryDialogView {
            open: self.open,
            directory: self.directory.deep_view(),
            input: self.input@,
            error: self.error.deep_view(),
        }
    }
}

impl CreateDirectoryDialog {
    pub fn new() -> (r: Self)
        ensures
            r@ == CreateDirectoryDialogView::fresh(),
    {
        Self { open: false, directory: None, input: String::new(), error: None }
    }

    /// Opens the sub-dialog for creating a directory inside `directory`,
    /// resetting the input and immediately validating it (the empty-name
    /// error is present without a prior edit).
    pub fn open(&mut self, directory: FilePath)
        ensures
            final(self)@ == CreateDirectoryDialogView::opened(directory@),
    {
        self.reset();
        self.open = true;
        self.directory = Some(directory);
        self.error = Some("Name of the folder can not be empty".to_owned());
    }

    /// Closes the sub-dialog, discarding the typed name.
    pub fn close(&mut self)
        ensures
            final(self)@ == old(self)@.closed(),
    {
        self.reset();
    }

    /// Clears everything but the error text, leaving the sub-dialog closed.
    pub fn reset(&mut self)
        ensures
            final(self)@ == old(self)@.closed(),
    {
        self.open = false;
        self.directory = None;
        self.input = String::new();
    }

    pub fn is_open(&self) -> (r: bool)
        ensures
            r == self@.open,
    {
        self.open
    }

    /// The typed folder name.
    pub fn input(&self) -> (r: &String)
        ensures
            r@ == self@.input,
    {
        &self.input
    }

    /// The current field error, if any.
    pub fn error(&self) -> (r: &Option<String>)
        ensures
            r.deep_view() == self@.error,
    {
        &self.error
    }

    pub fn has_error(&self) -> (r: bool)
        ensures
            r == (self@.error is Some),
    {
        self.error.is_some()
    }

    /// The path the sub-dialog would create: the typed name inside the
    /// parent directory. None while no parent directory is set.
    pub fn pending_path(&self) -> (r: Option<FilePath>)
        ensures
            match r {
                Some(p) => self@.directory is Some && p@ == self@.directory.unwrap().push(
                    self@.input,
                ),
                None => self@.directory is None,
            },
    {
        match &self.directory {
            Some(dir) => Some(dir.join(self.input.as_str())),
            None => None,
        }
    }

    /// Validates the typed name against the parent's current listing, as
    /// `spec_validate_create_name` describes.
    pub fn validate_input(&self, listing: &Vec<DirEntry>) -> (r: Option<String>)
        ensures
            r.deep_view() == spec_validate_create_name(
                self@.input,
                self@.directory,
                listing.deep_view(),
            ),
    {
        if self.input.as_str().is_empty() {
            return Some("Name of the folder can not be empty".to_owned());
        }
        match &self.directory {
            Some(_) => {
                if listing_contains_kind_named(listing, EntryKind::Directory, &self.input) {
                    Some("A directory with the name already exists".to_owned())
                } else {
                    None
                }
            },
            None => Some("No directory given".to_owned()),
        }
    }

    /// Replaces the typed name and re-validates it against the parent's
    /// current listing. A closed sub-dialog ignores edits.
    pub fn set_input(&mut self, text: String, listing: &Vec<DirEntry>)
        ensures
            !old(self)@.open ==> final(self)@ == old(self)@,
            old(self)@.open ==> final(self)@ == (CreateDirectoryDialogView {
                input: text@,
                error: spec_validate_create_name(
                    text@,
                    old(self)@.directory,
                    listing.deep_view(),
                ),
                ..old(self)@
            }),
    {
        if !self.open {
            return ;
        }
        self.input = text;
        self.error = self.validate_input(listing);
    }

    /// Applies the outcome of the caller's attempt to create the directory
    /// at `pending_path`. On success the sub-dialog closes and reports the
    /// created path; on failure the filesystem's message becomes the field
    /// error and the sub-dialog stays open, keeping the typed name.
    pub fn create_directory(&mut self, outcome: Result<(), String>) -> (r: CreateDirectoryResponse)
        ensures
            old(self)@.directory is Some ==> match outcome {
                Ok(_) => final(self)@ == old(self)@.closed() && r@ == Some(
                    old(self)@.directory.unwrap().push(old(self)@.input),
                ),
                Err(e) => final(self)@ == (CreateDirectoryDialogView {
                    error: Some(err_create_failed(e@)),
                    ..old(self)@
                }) && r@ is None,
            },
            old(self)@.directory is None ==> final(self)@ == (CreateDirectoryDialogView {
                error: Some(err_no_directory()),
                ..old(self)@
            }) && r@ is None,
    {
        let target = match &self.directory {
            Some(dir) => Some(dir.join(self.input.as_str())),
            None => None,
        };
        match target {
            Some(dir) => match outcome {
                Ok(_) => {
                    self.close();
                    CreateDirectoryResponse::new(&dir)
                },
                Err(e) => {
                    let mut msg = "Error: ".to_owned();
                    msg.append(e.as_str());
                    self.error = Some(msg);
                    CreateDirectoryResponse::new_empty()
                },
            },
            None => {
                self.error = Some("No directory given".to_owned());
                CreateDirectoryResponse::new_empty()
            },
        }
    }
}

} // verus!
