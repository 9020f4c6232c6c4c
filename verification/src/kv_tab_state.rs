//! Where the user stands in a table of key-value rows. Used by the query
//! parameters, the headers and the form fields alike.

use vstd::prelude::*;

verus! {

/// The column of the key field.
pub const COL_KEY: u8 = 0;

/// The column of the value field.
pub const COL_VALUE: u8 = 1;

/// The column of the button that adds a row.
pub const COL_ADD: u8 = 2;

/// The column of the button that removes the row.
pub const COL_REMOVE: u8 = 3;

pub struct KVTabStateView {
    pub active_row: int,
    pub active_col: int,
    pub scroll_pos: int,
}

impl KVTabStateView {
    /// The first row, the key column, nothing scrolled.
    pub open spec fn initial() -> Self {
        KVTabStateView { active_row: 0, active_col: 0, scroll_pos: 0 }
    }
}

#[derive(Clone, Copy, Debug, PartialEq, Eq, Structural)]
pub struct KVTabState {
    /// Index of the row that is highlighted or being edited.
    active_row: u16,
    /// The highlighted column: key, value, add button or remove button.
    active_col: u8,
    scroll_pos: u16,
}

impl View for KVTabState {
    type V = KVTabStateView;

    closed spec fn view(&self) -> KVTabStateView {
        KVTabStateView {
            active_row: self.active_row as int,
            active_col: self.active_col as int,
            scroll_pos: self.scroll_pos as int,
        }
    }
}

impl Default for KVTabState {
    fn default() -> (s: Self)
        ensures
            s@ == KVTabStateView::initial(),
    {
        KVTabState { active_row: 0, active_col: 0, scroll_pos: 0 }
    }
}

impl KVTabState {
    pub fn active_row(&self) -> (row: u16)
        ensures
            row == self@.active_row,
    {
        self.active_row
    }

    pub fn set_active_row(&mut self, row: u16)
        ensures
            final(self)@ == (KVTabStateView { active_row: row as int, ..old(self)@ }),
    {
        self.active_row = row;
    }

    pub fn active_col(&self) -> (col: u8)
        ensures
            col == self@.active_col,
    {
        self.active_col
    }

    pub fn set_active_col(&mut self, col: u8)
        ensures
            final(self)@ == (KVTabStateView { active_col: col as int, ..old(self)@ }),
    {
        self.active_col = col;
    }

    pub fn scroll_pos(&self) -> (pos: u16)
        ensures
            pos == self@.scroll_pos,
    {
        self.scroll_pos
    }

    pub fn set_scroll_pos(&mut self, pos: u16)
        ensures
            final(self)@ == (KVTabStateView { scroll_pos: pos as int, ..old(self)@ }),
    {
        self.scroll_pos = pos;
    }
}

} // verus!
