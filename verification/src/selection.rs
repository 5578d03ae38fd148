//! Which record of the list is highlighted, and how that moves.

use vstd::prelude::*;

verus! {

/// The highlighted record of a list, if the list has one.
#[derive(Clone, Copy, Debug, PartialEq, Eq, Structural)]
pub enum Selection {
    /// Nothing is highlighted: the list holds no record.
    Empty,
    /// The record at this index is highlighted.
    At(usize),
}

impl Selection {
    /// A selection belongs to a list of `len` records when it is `Empty` on
    /// the empty list and an index below `len` on any other.
    pub open spec fn valid_for(self, len: usize) -> bool {
        match self {
            Selection::Empty => len == 0,
            Selection::At(i) => i < len,
        }
    }

    /// The valid selection nearest to `self`: nothing on the empty list,
    /// the first record where nothing was highlighted, the last record where
    /// the index has fallen off the end, and `self` otherwise.
    pub open spec fn spec_fit(self, len: usize) -> Selection {
        if len == 0 {
            Selection::Empty
        } else {
            match self {
                Selection::Empty => Selection::At(0),
                Selection::At(i) => if i < len {
                    self
                } else {
                    Selection::At((len - 1) as usize)
                },
            }
        }
    }

    /// One step towards the end of the list, wrapping from the last record
    /// to the first.
    pub open spec fn spec_move_down(self, len: usize) -> Selection {
        match self.spec_fit(len) {
            Selection::Empty => Selection::Empty,
            Selection::At(i) => if i + 1 < len {
                Selection::At((i + 1) as usize)
            } else {
                Selection::At(0)
            },
        }
    }

    /// One step towards the start of the list, wrapping from the first
    /// record to the last.
    pub open spec fn spec_move_up(self, len: usize) -> Selection {
        match self.spec_fit(len) {
            Selection::Empty => Selection::Empty,
            Selection::At(i) => if i > 0 {
                Selection::At((i - 1) as usize)
            } else {
                Selection::At((len - 1) as usize)
            },
        }
    }

    /// The selection once the highlighted record has been removed and
    /// `remaining` records are left: the record before it, or the first one
    /// where the removed record was the first, or nothing on an empty list.
    pub open spec fn spec_after_remove(self, remaining: usize) -> Selection {
        match self {
            Selection::At(i) if i > 0 => Selection::At((i - 1) as usize).spec_fit(remaining),
            _ => self.spec_fit(remaining),
        }
    }

    /// The selection a dashboard starts with on a list of `len` records.
    pub fn initial(len: usize) -> (start: Selection)
        ensures
            start == Selection::Empty.spec_fit(len),
            start.valid_for(len),
    {
        if len == 0 {
            Selection::Empty
        } else {
            Selection::At(0)
        }
    }

    /// The highlighted index, if there is one.
    pub fn index(self) -> (i: Option<usize>)
        ensures
            i == match self {
                Selection::Empty => None::<usize>,
                Selection::At(at) => Some(at),
            },
    {
        match self {
            Selection::Empty => None,
            Selection::At(at) => Some(at),
        }
    }

    /// Brings the selection back into a list whose length may have changed.
    /// A valid selection is left as it is.
    pub fn fit(self, len: usize) -> (fitted: Selection)
        ensures
            fitted == self.spec_fit(len),
            fitted.valid_for(len),
            self.valid_for(len) ==> fitted == self,
    {
        if len == 0 {
            Selection::Empty
        } else {
            match self {
                Selection::Empty => Selection::At(0),
                Selection::At(i) => if i < len {
                    self
                } else {
                    Selection::At(len - 1)
                },
            }
        }
    }

    /// Moves the highlight one record down a list of `len` records.
    pub fn move_down(self, len: usize) -> (next: Selection)
        ensures
            next == self.spec_move_down(len),
            next.valid_for(len),
    {
        match self.fit(len) {
            Selection::Empty => Selection::Empty,
            Selection::At(i) => if i + 1 < len {
                Selection::At(i + 1)
            } else {
                Selection::At(0)
            },
        }
    }

    /// Moves the highlight one record up a list of `len` records.
    pub fn move_up(self, len: usize) -> (next: Selection)
        ensures
            next == self.spec_move_up(len),
            next.valid_for(len),
    {
        match self.fit(len) {
            Selection::Empty => Selection::Empty,
            Selection::At(i) => if i > 0 {
                Selection::At(i - 1)
            } else {
                Selection::At(len - 1)
            },
        }
    }

    /// Moves the highlight after its record was removed from the list,
    /// which now holds `remaining` records.
    pub fn after_remove(self, remaining: usize) -> (next: Selection)
        ensures
            next == self.spec_after_remove(remaining),
            next.valid_for(remaining),
    {
        match self {
            Selection::At(i) if i > 0 => Selection::At(i - 1).fit(remaining),
            _ => self.fit(remaining),
        }
    }
}

/// Moving down and then up, or up and then down, on the same list returns
/// a valid selection to where it started.
pub proof fn lemma_moves_undo_each_other(start: Selection, len: usize)
    requires
        start.valid_for(len),
    ensures
        start.spec_move_down(len).spec_move_up(len) == start,
        start.spec_move_up(len).spec_move_down(len) == start,
{
}

/// Every move lands on a valid selection of the list it was made on,
/// wherever it started.
pub proof fn lemma_moves_stay_in_range(start: Selection, len: usize)
    ensures
        start.spec_fit(len).valid_for(len),
        start.spec_move_down(len).valid_for(len),
        start.spec_move_up(len).valid_for(len),
        start.spec_after_remove(len).valid_for(len),
{
}

} // verus!
