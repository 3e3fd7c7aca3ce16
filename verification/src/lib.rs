//! A file-picker dialog controller: browse directories, navigate back and
//! forward through visited locations, select a file or directory (or type a
//! new file name to save), and create new directories inline — while
//! continuously re-validating whether the current selection is acceptable
//! for the requested operation mode.
//!
//! The controller is a synchronous state machine: every filesystem result
//! (a directory listing, the outcome of creating a directory) is handed in
//! as a plain value, so the caller performs the actual I/O and the
//! controller decides what the state becomes.

pub mod create_directory;
pub mod dialog;
pub mod environment;
pub mod history;
pub mod listing;
pub mod path;
pub mod search;

pub use create_directory::CreateDirectoryDialog;
pub use create_directory::CreateDirectoryResponse;
pub use dialog::DialogMode;
pub use dialog::DialogState;
pub use dialog::FileDialog;
pub use environment::DiskInfo;
pub use environment::UserDirectories;
pub use history::NavigationHistory;
pub use listing::DirEntry;
pub use listing::EntryKind;
pub use listing::IoError;
pub use path::FilePath;
