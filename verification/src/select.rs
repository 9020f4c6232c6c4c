//! What a select widget needs to know beside how it is drawn.

use vstd::prelude::*;

verus! {

/// The looks of a select widget.
#[derive(Clone, Copy, Debug, PartialEq, Eq, Structural)]
pub enum SelectVariant {
    Outline,
    Compact,
}

impl Default for SelectVariant {
    fn default() -> (v: Self)
        ensures
            v == SelectVariant::Outline,
    {
        SelectVariant::Outline
    }
}

/// An entry of a select widget: the name shown and the value it stands for.
#[derive(Debug, PartialEq, Eq)]
pub struct SelectOptions<T> {
    pub name: String,
    pub value: T,
}

impl<T: Clone> Clone for SelectOptions<T> {
    fn clone(&self) -> (r: Self)
        ensures
            r.name@ == self.name@,
            cloned::<T>(self.value, r.value),
    {
        SelectOptions { name: self.name.clone(), value: self.value.clone() }
    }
}

/// The entries shown of `count` entries, in an open list that shows `shown`
/// entries at a time and is scrolled to `scroll_offset`: as far as the list
/// and the entries reach.
pub open spec fn shown_options(count: int, scroll_offset: int, shown: int) -> (int, int) {
    let start = if scroll_offset > count {
        count
    } else {
        scroll_offset
    };
    let end = if start + shown > count {
        count
    } else {
        start + shown
    };
    (start, end)
}

/// The indices `start..end` of the entries to show.
pub fn visible_options(count: usize, scroll_offset: u8, shown: u8) -> (range: (usize, usize))
    ensures
        (range.0 as int, range.1 as int) == shown_options(
            count as int,
            scroll_offset as int,
            shown as int,
        ),
        range.0 <= range.1 <= count,
{
    let start = if scroll_offset as usize > count {
        count
    } else {
        scroll_offset as usize
    };
    let end = if shown as usize > count - start {
        count
    } else {
        start + shown as usize
    };
    (start, end)
}

} // verus!
