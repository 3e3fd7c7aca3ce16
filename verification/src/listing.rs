use vstd::prelude::*;

use crate::path::FilePath;

verus! {

/// Whether a directory child is a regular file or a directory.
#[derive(Clone, Copy, Debug, PartialEq, Eq, Structural)]
pub enum EntryKind {
    File,
    Directory,
}

/// One immediate child of a directory: its full path together with whether
/// it is a file or a directory. A listing is a wholesale snapshot of a
/// directory's children; it is never updated incrementally.
#[derive(Debug, PartialEq, Eq)]
pub struct DirEntry {
    pub path: FilePath,
    pub kind: EntryKind,
}

/// The mathematical value of one listing entry.
pub struct DirEntryView {
    pub path: Seq<Seq<char>>,
    pub kind: EntryKind,
}

impl View for DirEntry {
    type V = DirEntryView;

    open spec fn view(&self) -> DirEntryView {
        DirEntryView { path: self.path@, kind: self.kind }
    }
}

impl DeepView for DirEntry {
    type V = DirEntryView;

    open spec fn deep_view(&self) -> DirEntryView {
        self.view()
    }
}

impl Clone for DirEntry {
    fn clone(&self) -> (r: Self)
        ensures
            r@ == self@,
    {
        DirEntry { path: self.path.clone(), kind: self.kind }
    }
}

impl DirEntry {
    pub fn new(path: FilePath, kind: EntryKind) -> (r: Self)
        ensures
            r@ == (DirEntryView { path: path@, kind }),
    {
        DirEntry { path, kind }
    }
}

/// A failure to read from or write to the filesystem, reported by the
/// caller that performed the access. The controller recovers from these
/// locally: a failed listing leaves the dialog open with an empty or stale
/// listing, and a failed directory creation becomes a field error on the
/// create-directory sub-dialog.
#[derive(Debug)]
pub struct IoError {
    pub message: String,
}

impl View for IoError {
    type V = Seq<char>;

    open spec fn view(&self) -> Seq<char> {
        self.message@
    }
}

/// The listing holds an entry at `path` of kind `kind`.
pub open spec fn listing_has_entry(
    l: Seq<DirEntryView>,
    path: Seq<Seq<char>>,
    kind: EntryKind,
) -> bool {
    exists|i: int| 0 <= i < l.len() && l[i].path == path && #[trigger] l[i].kind == kind
}

/// The entry is of the given kind and its name (its path's last segment)
/// is `name`.
pub open spec fn entry_is_kind_named(e: DirEntryView, kind: EntryKind, name: Seq<char>) -> bool {
    e.kind == kind && e.path.len() > 0 && e.path.last() == name
}

/// The listing holds an entry of the given kind named `name`.
pub open spec fn listing_has_kind_named(
    l: Seq<DirEntryView>,
    kind: EntryKind,
    name: Seq<char>,
) -> bool {
    exists|i: int| 0 <= i < l.len() && entry_is_kind_named(#[trigger] l[i], kind, name)
}

/// Looks up whether the listing holds an entry at `path` of kind `kind`.
pub fn listing_contains(l: &Vec<DirEntry>, path: &FilePath, kind: EntryKind) -> (r: bool)
    ensures
        r == listing_has_entry(l.deep_view(), path@, kind),
{
    let mut i: usize = 0;
    while i < l.len()
        invariant
            i <= l.len(),
            forall|j: int|
                0 <= j < i ==> !(l.deep_view()[j].path == path@ && #[trigger] l.deep_view()[j].kind
                    == kind),
        decreases l.len() - i,
    {
        if l[i].kind == kind && l[i].path.equals(path) {
            proof {
                assert(l.deep_view()[i as int].path == path@ && l.deep_view()[i as int].kind
                    == kind);
            }
            return true;
        }
        i += 1;
    }
    false
}

/// Looks up whether the listing holds an entry of kind `kind` named `name`.
pub fn listing_contains_kind_named(l: &Vec<DirEntry>, kind: EntryKind, name: &String) -> (r: bool)
    ensures
        r == listing_has_kind_named(l.deep_view(), kind, name@),
{
    let mut i: usize = 0;
    while i < l.len()
        invariant
            i <= l.len(),
            forall|j: int|
                0 <= j < i ==> !entry_is_kind_named(#[trigger] l.deep_view()[j], kind, name@),
        decreases l.len() - i,
    {
        if l[i].kind == kind && l[i].path.last_segment_is(name) {
            proof {
                assert(entry_is_kind_named(l.deep_view()[i as int], kind, name@));
            }
            return true;
        }
        i += 1;
    }
    false
}

} // verus!
