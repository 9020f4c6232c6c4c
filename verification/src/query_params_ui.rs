//! Where the user stands in the table of query parameters.

use vstd::prelude::*;

verus! {

pub struct QueryParamsUiView {
    pub active_param_row: int,
    pub active_param_col: int,
}

#[derive(Clone, Copy, Debug, PartialEq, Eq, Structural)]
pub struct QueryParamsUi {
    /// Index of the parameter that is highlighted or being edited.
    active_param_row: u16,
    /// The highlighted column: name, value, add button or remove button.
    active_param_col: u8,
}

impl View for QueryParamsUi {
    type V = QueryParamsUiView;

    closed spec fn view(&self) -> QueryParamsUiView {
        QueryParamsUiView {
            active_param_row: self.active_param_row as int,
            active_param_col: self.active_param_col as int,
        }
    }
}

impl Default for QueryParamsUi {
    fn default() -> (s: Self)
        ensures
            s@ == (QueryParamsUiView { active_param_row: 0, active_param_col: 0 }),
    {
        QueryParamsUi { active_param_row: 0, active_param_col: 0 }
    }
}

impl QueryParamsUi {
    pub fn active_param_row(&self) -> (row: u16)
        ensures
            row == self@.active_param_row,
    {
        self.active_param_row
    }

    pub fn set_active_param_row(&mut self, row: u16)
        ensures
            final(self)@ == (QueryParamsUiView { active_param_row: row as int, ..old(self)@ }),
    {
        self.active_param_row = row;
    }

    pub fn active_param_col(&self) -> (col: u8)
        ensures
            col == self@.active_param_col,
    {
        self.active_param_col
    }

    pub fn set_active_param_col(&mut self, col: u8)
        ensures
            final(self)@ == (QueryParamsUiView { active_param_col: col as int, ..old(self)@ }),
    {
        self.active_param_col = col;
    }
}

} // verus!
