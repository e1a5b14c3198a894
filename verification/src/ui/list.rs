//! Editing a list view: its rows and the selected row.
//!
//! The three lists of the main window (grid regions, content images and
//! highlight images) share these rules. The application reads the rows and
//! the selection from the widget, applies one edit, and writes both back
//! when the edit reports a change.

use vstd::prelude::*;

verus! {

/// The selection of a list in which no row is selected.
pub const NO_SELECTION: i32 = -1;

/// `s` with the entries at `i` and `j` exchanged.
pub open spec fn swapped<T>(s: Seq<T>, i: int, j: int) -> Seq<T>
    recommends
        0 <= i < s.len(),
        0 <= j < s.len(),
{
    s.update(i, s[j]).update(j, s[i])
}

/// Exchanging two rows a second time puts them back: a row moved up and
/// then down again, or down and then up, leaves the list as it was.
pub proof fn lemma_swapped_twice<T>(s: Seq<T>, i: int, j: int)
    requires
        0 <= i < s.len(),
        0 <= j < s.len(),
    ensures
        swapped(swapped(s, i, j), i, j) == s,
        swapped(s, i, j) == swapped(s, j, i),
{
}

/// Exchanging two rows neither adds a row nor loses one.
pub proof fn lemma_swapped_keeps_rows<T>(s: Seq<T>, i: int, j: int)
    requires
        0 <= i < s.len(),
        0 <= j < s.len(),
    ensures
        swapped(s, i, j).len() == s.len(),
        swapped(s, i, j).to_multiset() == s.to_multiset(),
{
    broadcast use vstd::multiset::group_multiset_axioms;

    let half = s.update(i, s[j]);
    vstd::seq_lib::to_multiset_update(s, i, s[j]);
    vstd::seq_lib::to_multiset_update(half, j, s[i]);
    s.to_multiset_ensures();
}

/// One of the three lists of the main window.
#[derive(Debug, Clone, Copy, PartialEq, Eq, Structural)]
pub enum ListKind {
    Grids,
    Content,
    Highlights,
}

impl ListKind {
    /// The text of a row that was just added to the list.
    pub open spec fn new_row_text(self) -> Seq<char> {
        match self {
            ListKind::Grids => "(0,0), (1920x1080)"@,
            ListKind::Content => "/path/to/image.jpg"@,
            ListKind::Highlights => "/path/to/highlight.jpg"@,
        }
    }

    /// The text that a new row of the list starts with.
    pub fn new_row(self) -> (text: &'static str)
        ensures
            text@ == self.new_row_text(),
    {
        match self {
            ListKind::Grids => "(0,0), (1920x1080)",
            ListKind::Content => "/path/to/image.jpg",
            ListKind::Highlights => "/path/to/highlight.jpg",
        }
    }
}

/// The rows of a list view and the index of the selected row.
///
/// `selected` follows the widget's convention: any negative value means
/// that no row is selected, and the edits write `NO_SELECTION` for it.
pub struct ListState<T> {
    pub items: Vec<T>,
    pub selected: i32,
}

impl<T> ListState<T> {
    /// The selection names an existing row.
    pub open spec fn has_selection(&self) -> bool {
        0 <= self.selected < self.items@.len()
    }

    /// The selected row has a row above it.
    pub open spec fn can_move_up(&self) -> bool {
        0 < self.selected < self.items@.len()
    }

    /// The selected row has a row below it.
    pub open spec fn can_move_down(&self) -> bool {
        0 <= self.selected && self.selected + 1 < self.items@.len()
    }

    pub fn new(items: Vec<T>, selected: i32) -> (list: Self)
        ensures
            list.items == items,
            list.selected == selected,
    {
        ListState { items, selected }
    }

    /// Appends a row. The selection stays where it is.
    pub fn add(&mut self, item: T)
        ensures
            final(self).items@ == old(self).items@.push(item),
            final(self).selected == old(self).selected,
    {
        self.items.push(item);
    }

    /// Removes the selected row and clears the selection. Without a
    /// selected row nothing changes.
    pub fn remove_selected(&mut self) -> (changed: bool)
        ensures
            changed == old(self).has_selection(),
            changed ==> final(self).items@ == old(self).items@.remove(old(self).selected as int),
            changed ==> final(self).selected == NO_SELECTION,
            !changed ==> *final(self) == *old(self),
    {
        if self.selected >= 0 {
            let at = self.selected as usize;
            if at < self.items.len() {
                let _ = self.items.remove(at);
                self.selected = NO_SELECTION;
                return true;
            }
        }
        false
    }

    /// Exchanges the selected row with the one above it; the selection
    /// follows the row. The first row, or no selection, changes nothing.
    pub fn move_up(&mut self) -> (changed: bool)
        requires
            old(self).selected > 0 ==> old(self).selected < old(self).items@.len(),
        ensures
            changed == old(self).can_move_up(),
            changed ==> final(self).items@ == swapped(
                old(self).items@,
                old(self).selected as int,
                old(self).selected - 1,
            ),
            changed ==> final(self).selected == old(self).selected - 1,
            !changed ==> *final(self) == *old(self),
    {
        if self.selected > 0 {
            let at = self.selected as usize;
            let row = self.items.remove(at);
            self.items.insert(at - 1, row);
            self.selected = self.selected - 1;
            return true;
        }
        false
    }

    /// Exchanges the selected row with the one below it; the selection
    /// follows the row. The last row, or no selection, changes nothing.
    pub fn move_down(&mut self) -> (changed: bool)
        requires
            old(self).can_move_down() ==> old(self).selected < i32::MAX,
        ensures
            changed == old(self).can_move_down(),
            changed ==> final(self).items@ == swapped(
                old(self).items@,
                old(self).selected as int,
                old(self).selected + 1,
            ),
            changed ==> final(self).selected == old(self).selected + 1,
            !changed ==> *final(self) == *old(self),
    {
        if self.selected >= 0 {
            let at = self.selected as usize;
            let len = self.items.len();
            if len > 0 && at < len - 1 {
                let row = self.items.remove(at);
                self.items.insert(at + 1, row);
                self.selected = self.selected + 1;
                return true;
            }
        }
        false
    }

    /// Removes every row and clears the selection.
    pub fn clear(&mut self)
        ensures
            final(self).items@ == Seq::<T>::empty(),
            final(self).selected == NO_SELECTION,
    {
        self.items.clear();
        self.selected = NO_SELECTION;
    }
}

} // verus!
