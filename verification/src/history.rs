use vstd::prelude::*;

use crate::path::FilePath;

verus! {

/// The ordered sequence of visited directories, together with an offset
/// that measures the distance from the most recently visited entry
/// (0 = most recent). The current directory is the entry at
/// `stack.len() - 1 - offset`. Visiting a new directory from a
/// back-navigated position discards the abandoned forward branch, as a
/// browser's history does.
pub struct NavigationHistory {
    stack: Vec<FilePath>,
    offset: usize,
}

/// The mathematical value of a navigation history.
#[verifier::ext_equal]
pub struct HistoryView {
    pub stack: Seq<Seq<Seq<char>>>,
    pub offset: int,
}

impl HistoryView {
    /// The offset stays inside the stack whenever the stack is non-empty,
    /// and is zero when it is empty.
    pub open spec fn wf(self) -> bool {
        &&& 0 <= self.offset
        &&& self.stack.len() == 0 ==> self.offset == 0
        &&& self.stack.len() > 0 ==> self.offset < self.stack.len()
    }

    /// The directory whose contents populate the current listing.
    pub open spec fn current(self) -> Option<Seq<Seq<char>>> {
        if self.stack.len() > 0 {
            Some(self.stack[self.stack.len() - 1 - self.offset])
        } else {
            None
        }
    }

    pub open spec fn can_go_back(self) -> bool {
        self.offset + 1 < self.stack.len()
    }

    pub open spec fn can_go_forward(self) -> bool {
        self.offset > 0
    }

    /// Visiting the current directory again changes nothing. Visiting any
    /// other directory drops every entry between the current position and
    /// the stack's head, pushes the new directory, and resets the offset.
    pub open spec fn navigate_to(self, p: Seq<Seq<char>>) -> HistoryView {
        if self.current() == Some(p) {
            self
        } else {
            HistoryView { stack: self.stack.take(self.stack.len() - self.offset).push(p), offset: 0 }
        }
    }

    /// Steps one entry towards older history; a no-op at the boundary.
    pub open spec fn go_back(self) -> HistoryView {
        if self.can_go_back() {
            HistoryView { offset: self.offset + 1, ..self }
        } else {
            self
        }
    }

    /// Steps one entry towards newer history; a no-op at the boundary.
    pub open spec fn go_forward(self) -> HistoryView {
        if self.can_go_forward() {
            HistoryView { offset: self.offset - 1, ..self }
        } else {
            self
        }
    }
}

impl View for NavigationHistory {
    type V = HistoryView;

    closed spec fn view(&self) -> HistoryView {
        HistoryView { stack: self.stack.deep_view(), offset: self.offset as int }
    }
}

impl NavigationHistory {
    pub fn new() -> (r: Self)
        ensures
            r@ == (HistoryView { stack: Seq::<Seq<Seq<char>>>::empty(), offset: 0 }),
            r@.wf(),
    {
        let r = NavigationHistory { stack: Vec::new(), offset: 0 };
        proof {
            assert(r@.stack =~= Seq::<Seq<Seq<char>>>::empty());
            assert(r@ =~= (HistoryView { stack: Seq::<Seq<Seq<char>>>::empty(), offset: 0 }));
        }
        r
    }

    /// The current directory, if any directory has been visited.
    pub fn current(&self) -> (r: Option<&FilePath>)
        requires
            self@.wf(),
        ensures
            match r {
                Some(p) => self@.current() == Some(p@),
                None => self@.current() is None,
            },
    {
        if self.stack.len() > 0 {
            Some(&self.stack[self.stack.len() - 1 - self.offset])
        } else {
            None
        }
    }

    pub fn can_go_back(&self) -> (r: bool)
        ensures
            r == self@.can_go_back(),
    {
        self.stack.len() > 0 && self.offset < self.stack.len() - 1
    }

    pub fn can_go_forward(&self) -> (r: bool)
        ensures
            r == self@.can_go_forward(),
    {
        self.offset > 0
    }

    /// Visits `path`, truncating forward history as `HistoryView::navigate_to`
    /// describes.
    pub fn navigate_to(&mut self, path: FilePath)
        requires
            old(self)@.wf(),
        ensures
            final(self)@ == old(self)@.navigate_to(path@),
            final(self)@.wf(),
    {
        let is_same = match self.current() {
            Some(c) => c.equals(&path),
            None => false,
        };
        if is_same {
            return ;
        }
        if self.offset != 0 && self.stack.len() > self.offset {
            let keep = self.stack.len() - self.offset;
            self.stack.truncate(keep);
            proof {
                assert(self.stack.deep_view() =~= old(self)@.stack.take(
                    old(self)@.stack.len() - old(self)@.offset,
                ));
            }
        }
        self.stack.push(path);
        self.offset = 0;
        proof {
            assert(self.stack.deep_view() =~= old(self)@.stack.take(
                old(self)@.stack.len() - old(self)@.offset,
            ).push(path@));
            assert(final(self)@ =~= old(self)@.navigate_to(path@));
        }
    }

    /// A copy of the history, for peeking at neighbouring entries.
    pub fn clone_history(&self) -> (r: Self)
        ensures
            r@ == self@,
    {
        let mut stack: Vec<FilePath> = Vec::new();
        let mut i: usize = 0;
        while i < self.stack.len()
            invariant
                i <= self.stack.len(),
                stack.len() == i,
                stack.deep_view() == self.stack.deep_view().take(i as int),
            decreases self.stack.len() - i,
        {
            let item = self.stack[i].clone();
            proof {
                assert(item@ == self.stack.deep_view()[i as int]);
            }
            stack.push(item);
            proof {
                assert(stack.deep_view() =~= self.stack.deep_view().take(i + 1));
            }
            i += 1;
        }
        let r = NavigationHistory { stack, offset: self.offset };
        proof {
            assert(self.stack.deep_view().take(self.stack.deep_view().len() as int)
                =~= self.stack.deep_view());
            assert(r@ =~= self@);
        }
        r
    }

    /// Steps back, reporting whether a step was available.
    pub fn go_back(&mut self) -> (moved: bool)
        ensures
            final(self)@ == old(self)@.go_back(),
            moved == old(self)@.can_go_back(),
    {
        if self.stack.len() > 0 && self.offset < self.stack.len() - 1 {
            self.offset = self.offset + 1;
            proof {
                assert(final(self)@ =~= old(self)@.go_back());
            }
            true
        } else {
            proof {
                assert(final(self)@ =~= old(self)@.go_back());
            }
            false
        }
    }

    /// Steps forward, reporting whether a step was available.
    pub fn go_forward(&mut self) -> (moved: bool)
        ensures
            final(self)@ == old(self)@.go_forward(),
            moved == old(self)@.can_go_forward(),
    {
        if self.can_go_forward() {
            self.offset = self.offset - 1;
            proof {
                assert(final(self)@ =~= old(self)@.go_forward());
            }
            true
        } else {
            proof {
                assert(final(self)@ =~= old(self)@.go_forward());
            }
            false
        }
    }
}

/// Law: when a back step is available, stepping back and then forward
/// restores the history exactly, the current directory included. (When no
/// back step is available, back is a no-op but forward might still move:
/// from a stack of two entries at offset 1, back stays put and forward
/// moves to offset 0, so the law holds only where back succeeds.)
pub proof fn lemma_back_then_forward(h: HistoryView)
    requires
        h.wf(),
        h.can_go_back(),
    ensures
        h.go_back().go_forward() == h,
        h.go_back().go_forward().current() == h.current(),
{
    assert(h.go_back().go_forward() =~= h);
}

/// Law: when a forward step is available, stepping forward and then back
/// restores the history exactly, the current directory included.
pub proof fn lemma_forward_then_back(h: HistoryView)
    requires
        h.wf(),
        h.can_go_forward(),
    ensures
        h.go_forward().go_back() == h,
        h.go_forward().go_back().current() == h.current(),
{
    assert(h.go_forward().go_back() =~= h);
}

/// Law: navigating to a path other than the current directory while
/// back-navigated (offset > 0) discards every forward entry beyond the
/// current position: the entries up to and including the current one are
/// kept, the new path follows them, and nothing else remains.
pub proof fn lemma_navigate_discards_forward(h: HistoryView, p: Seq<Seq<char>>)
    requires
        h.wf(),
        h.current() != Some(p),
    ensures
        h.navigate_to(p).stack.len() == h.stack.len() - h.offset + 1,
        forall|i: int|
            0 <= i < h.stack.len() - h.offset ==> h.navigate_to(p).stack[i] == h.stack[i],
        h.navigate_to(p).stack.last() == p,
        h.navigate_to(p).offset == 0,
        h.navigate_to(p).current() == Some(p),
{
}

} // verus!
