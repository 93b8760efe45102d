use vstd::prelude::*;

verus! {

/// An ordered list with at most one selected item.
#[derive(Clone, Debug)]
pub struct StatefulList<T> {
    pub items: Vec<T>,
    pub selected: Option<usize>,
}

/// The selection after a move down: one further, kept at the last item;
/// the first item where nothing was selected; nothing on an empty list.
pub open spec fn index_after_next(selected: Option<usize>, len: nat) -> Option<usize> {
    if len == 0 {
        None
    } else {
        match selected {
            Some(i) => if i + 1 < len {
                Some((i + 1) as usize)
            } else {
                Some((len - 1) as usize)
            },
            None => Some(0),
        }
    }
}

/// The selection after a move up: one back, kept at the first item;
/// the first item where nothing was selected; nothing on an empty list.
pub open spec fn index_after_previous(selected: Option<usize>, len: nat) -> Option<usize> {
    if len == 0 {
        None
    } else {
        match selected {
            Some(i) => if i > 0 {
                Some((i - 1) as usize)
            } else {
                Some(0)
            },
            None => Some(0),
        }
    }
}

/// A move up or down selects nothing on an empty list, and an item of the
/// list otherwise.
pub proof fn lemma_moves_stay_in_range(selected: Option<usize>, len: nat)
    requires
        len <= usize::MAX,
        match selected {
            Some(i) => i < len,
            None => true,
        },
    ensures
        len == 0 ==> index_after_next(selected, len).is_none() && index_after_previous(selected, len).is_none(),
        len > 0 ==> index_after_next(selected, len).is_some() && index_after_next(selected, len).unwrap() < len,
        len > 0 ==> index_after_previous(selected, len).is_some() && index_after_previous(selected, len).unwrap() < len,
{
}

impl<T> StatefulList<T> {
    /// The selection, if any, points at an item.
    pub open spec fn wf(&self) -> bool {
        match self.selected {
            Some(i) => i < self.items@.len(),
            None => true,
        }
    }

    /// A list of `items` with nothing selected.
    pub fn with_items(items: Vec<T>) -> (r: StatefulList<T>)
        ensures
            r.wf(),
            r.items == items,
            r.selected.is_none(),
    {
        StatefulList { items, selected: None }
    }

    /// Moves the selection one item down, stopping at the last.
    pub fn next(&mut self)
        requires
            old(self).wf(),
        ensures
            final(self).wf(),
            final(self).items == old(self).items,
            final(self).selected == index_after_next(old(self).selected, old(self).items@.len()),
    {
        let len = self.items.len();
        if len == 0 {
            self.selected = None;
        } else {
            match self.selected {
                Some(i) => {
                    if i + 1 < len {
                        self.selected = Some(i + 1);
                    } else {
                        self.selected = Some(len - 1);
                    }
                },
                None => {
                    self.selected = Some(0);
                },
            }
        }
    }

    /// Moves the selection one item up, stopping at the first.
    pub fn previous(&mut self)
        requires
            old(self).wf(),
        ensures
            final(self).wf(),
            final(self).items == old(self).items,
            final(self).selected == index_after_previous(old(self).selected, old(self).items@.len()),
    {
        let len = self.items.len();
        if len == 0 {
            self.selected = None;
        } else {
            match self.selected {
                Some(i) => {
                    if i > 0 {
                        self.selected = Some(i - 1);
                    } else {
                        self.selected = Some(0);
                    }
                },
                None => {
                    self.selected = Some(0);
                },
            }
        }
    }

    /// Selects the item at `index`, or nothing.
    pub fn select(&mut self, index: Option<usize>)
        requires
            match index {
                Some(i) => i < old(self).items@.len(),
                None => true,
            },
        ensures
            final(self).wf(),
            final(self).items == old(self).items,
            final(self).selected == index,
    {
        self.selected = index;
    }

    /// Clears the selection.
    pub fn unselect(&mut self)
        ensures
            final(self).wf(),
            final(self).items == old(self).items,
            final(self).selected.is_none(),
    {
        self.selected = None;
    }

    /// The selected index, if any.
    pub fn selected(&self) -> (r: Option<usize>)
        ensures
            r == self.selected,
    {
        self.selected
    }
}

} // verus!
