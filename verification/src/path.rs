use vstd::prelude::*;

verus! {

/// An absolute, canonicalized filesystem path, stored as its component names
/// from the root downward. The empty sequence of segments stands for the
/// filesystem root itself. The caller resolving relative segments and
/// symlinks (canonicalization) happens outside the controller; every path
/// handed in is taken to already be in this form.
#[derive(Debug, PartialEq, Eq)]
pub struct FilePath {
    segments: Vec<String>,
}

impl View for FilePath {
    type V = Seq<Seq<char>>;

    closed spec fn view(&self) -> Seq<Seq<char>> {
        self.segments.deep_view()
    }
}

impl DeepView for FilePath {
    type V = Seq<Seq<char>>;

    open spec fn deep_view(&self) -> Seq<Seq<char>> {
        self.view()
    }
}

/// Copies a vector of strings element by element, so that the copy is known
/// to denote the same sequence of character sequences.
fn clone_string_vec(v: &Vec<String>) -> (r: Vec<String>)
    ensures
        r.deep_view() == v.deep_view(),
{
    let mut r: Vec<String> = Vec::new();
    let mut i: usize = 0;
    while i < v.len()
        invariant
            i <= v.len(),
            r.len() == i,
            forall|j: int| 0 <= j < i ==> r.deep_view()[j] == v.deep_view()[j],
        decreases v.len() - i,
    {
        r.push(v[i].clone());
        i += 1;
    }
    proof {
        assert(r.deep_view() =~= v.deep_view());
    }
    r
}

impl Clone for FilePath {
    fn clone(&self) -> (r: Self)
        ensures
            r@ == self@,
    {
        FilePath { segments: clone_string_vec(&self.segments) }
    }
}

impl FilePath {
    /// Builds a path from its component names, root segment first.
    pub fn new(segments: Vec<String>) -> (r: Self)
        ensures
            r@ == segments.deep_view(),
    {
        FilePath { segments }
    }

    /// The filesystem root: the path with no segments.
    pub fn root() -> (r: Self)
        ensures
            r@ == Seq::<Seq<char>>::empty(),
    {
        FilePath { segments: Vec::new() }
    }

    /// The component names of the path, for breadcrumb display.
    pub fn segments(&self) -> (r: &Vec<String>)
        ensures
            r.deep_view() == self@,
    {
        &self.segments
    }

    /// True when both paths name the same location.
    pub fn equals(&self, other: &FilePath) -> (r: bool)
        ensures
            r == (self@ == other@),
    {
        if self.segments.len() != other.segments.len() {
            proof {
                assert(self@.len() != other@.len());
            }
            return false;
        }
        let mut i: usize = 0;
        while i < self.segments.len()
            invariant
                i <= self.segments.len(),
                self.segments.len() == other.segments.len(),
                forall|j: int| 0 <= j < i ==> self@[j] == other@[j],
            decreases self.segments.len() - i,
        {
            if !(self.segments[i] == other.segments[i]) {
                proof {
                    assert(self@[i as int] != other@[i as int]);
                }
                return false;
            }
            i += 1;
        }
        proof {
            assert(self@ =~= other@);
        }
        true
    }

    /// The path of the child named `name` inside this directory.
    pub fn join(&self, name: &str) -> (r: FilePath)
        ensures
            r@ == self@.push(name@),
    {
        let mut segs = clone_string_vec(&self.segments);
        segs.push(name.to_owned());
        proof {
            assert(segs.deep_view() =~= self@.push(name@));
        }
        FilePath { segments: segs }
    }

    /// The name of the file or directory the path points at: its last
    /// segment. The root has no name.
    pub fn file_name(&self) -> (r: Option<String>)
        ensures
            match r {
                Some(name) => self@.len() > 0 && name@ == self@.last(),
                None => self@.len() == 0,
            },
    {
        if self.segments.len() == 0 {
            None
        } else {
            Some(self.segments[self.segments.len() - 1].clone())
        }
    }

    /// The directory containing this path, or none for the root.
    pub fn parent(&self) -> (r: Option<FilePath>)
        ensures
            match r {
                Some(p) => self@.len() > 0 && p@ == self@.drop_last(),
                None => self@.len() == 0,
            },
    {
        if self.segments.len() == 0 {
            None
        } else {
            let mut segs = clone_string_vec(&self.segments);
            let _ = segs.pop();
            proof {
                assert(segs.deep_view() =~= self@.drop_last());
            }
            Some(FilePath { segments: segs })
        }
    }

    /// True when the path has a name and that name is `name`.
    pub fn last_segment_is(&self, name: &String) -> (r: bool)
        ensures
            r == (self@.len() > 0 && self@.last() == name@),
    {
        if self.segments.len() == 0 {
            return false;
        }
        self.segments[self.segments.len() - 1] == *name
    }

    /// True for the filesystem root, the only path without a parent.
    pub fn is_root(&self) -> (r: bool)
        ensures
            r == (self@.len() == 0),
    {
        self.segments.len() == 0
    }
}

} // verus!
