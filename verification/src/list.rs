//! The selection-state engine: an ordered list of items with a cursor.

use vstd::prelude::*;

use crate::selection::{cleared_selection, next_selection, previous_selection, valid_selection};

verus! {

/// Lifts an executable cursor to the model: `Some(i)` becomes the
/// mathematical index `i`.
pub open spec fn index_view(sel: Option<usize>) -> Option<int> {
    match sel {
        None => None,
        Some(i) => Some(i as int),
    }
}

/// An ordered sequence of items paired with a single optional selection
/// index. The item sequence is fixed at construction; the cursor moves only
/// through [`StatefulList::next`], [`StatefulList::previous`] and
/// [`StatefulList::unselect`], each of which keeps the cursor valid.
pub struct StatefulList<T> {
    items: Vec<T>,
    selected: Option<usize>,
}

impl<T> StatefulList<T> {
    /// The items, as a mathematical sequence.
    pub closed spec fn items_seq(&self) -> Seq<T> {
        self.items@
    }

    /// The cursor, as an optional mathematical index.
    pub closed spec fn selection(&self) -> Option<int> {
        index_view(self.selected)
    }

    /// Well-formed: the cursor, when present, indexes into the items. In
    /// particular an empty list is always unselected.
    pub open spec fn wf(&self) -> bool {
        valid_selection(self.selection(), self.items_seq().len() as int)
    }

    /// Builds a list over the given items with nothing selected.
    pub fn with_items(items: Vec<T>) -> (list: StatefulList<T>)
        ensures
            list.wf(),
            list.items_seq() == items@,
            list.selection() is None,
    {
        StatefulList { items, selected: None }
    }

    /// Advances the cursor by one item, wrapping from the last item to the
    /// first; selects the first item when nothing was selected; leaves an
    /// empty list untouched.
    pub fn next(&mut self)
        requires
            old(self).wf(),
        ensures
            final(self).wf(),
            final(self).items_seq() == old(self).items_seq(),
            final(self).selection() == next_selection(
                old(self).selection(),
                old(self).items_seq().len() as int,
            ),
    {
        if self.items.len() == 0 {
            return;
        }
        let i: usize = match self.selected {
            Some(i) => if i >= self.items.len() - 1 {
                0
            } else {
                i + 1
            },
            None => 0,
        };
        self.selected = Some(i);
    }

    /// Moves the cursor back by one item, wrapping from the first item to
    /// the last; selects the first item when nothing was selected; leaves an
    /// empty list untouched.
    pub fn previous(&mut self)
        requires
            old(self).wf(),
        ensures
            final(self).wf(),
            final(self).items_seq() == old(self).items_seq(),
            final(self).selection() == previous_selection(
                old(self).selection(),
                old(self).items_seq().len() as int,
            ),
    {
        if self.items.len() == 0 {
            return;
        }
        let i: usize = match self.selected {
            Some(i) => if i == 0 {
                self.items.len() - 1
            } else {
                i - 1
            },
            None => 0,
        };
        self.selected = Some(i);
    }

    /// Clears the cursor unconditionally; safe to call on an already
    /// unselected list.
    pub fn unselect(&mut self)
        ensures
            final(self).wf(),
            final(self).items_seq() == old(self).items_seq(),
            final(self).selection() == cleared_selection(old(self).selection()),
    {
        self.selected = None;
    }

    /// The current selection, for a renderer to highlight the chosen row.
    pub fn current(&self) -> (sel: Option<usize>)
        ensures
            index_view(sel) == self.selection(),
    {
        self.selected
    }

    /// The items the cursor navigates, in order.
    pub fn items(&self) -> (items: &Vec<T>)
        ensures
            items@ == self.items_seq(),
    {
        &self.items
    }
}

} // verus!
