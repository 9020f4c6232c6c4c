//! The multi-line text editor: a line buffer with a cursor, a selection and
//! a scroll offset.

use vstd::prelude::*;
use crate::chars::{appended, char_count, slice_chars, strings_view, to_chars};
use crate::line_buffer::{join_all, split_into_lines, LineBuffer};
use crate::text_model::{
    lines_between, lines_ok, splice_lines, valid_pos, TextEditModel, MAX_LEN,
};
use crate::text_laws::{
    lemma_delete_selected_wf, lemma_delete_wf, lemma_insert_char_wf, lemma_move_cursor_wf,
    lemma_new_line_wf, lemma_paste_wf, lemma_select_all_wf, lemma_splice_lines,
};
use crate::words::{
    lemma_word_left_target_bounds, lemma_word_right_target_bounds, next_whitespace_len,
    prev_whitespace_len, scan_next_whitespace, scan_prev_whitespace, word_left_target,
    word_right_target,
};

verus! {

/// The six ways the cursor moves.
#[derive(Clone, Copy, Debug, PartialEq, Eq, Structural)]
pub enum TextEditMoveDirection {
    Up,
    Right,
    Down,
    Left,
    End,
    Home,
}

/// Whether each of the strings `pieces[from..to]` has at most `MAX_LEN`
/// characters.
fn all_fit(pieces: &Vec<String>, from: usize, to: usize) -> (b: bool)
    requires
        from <= to <= pieces@.len(),
    ensures
        b == forall|i: int| from <= i < to ==> (#[trigger] strings_view(pieces@)[i]).len() <= MAX_LEN,
{
    let mut j: usize = from;
    while j < to
        invariant
            from <= j <= to <= pieces@.len(),
            forall|i: int| from <= i < j ==> (#[trigger] strings_view(pieces@)[i]).len() <= MAX_LEN,
        decreases to - j,
    {
        if char_count(&pieces[j]) > MAX_LEN {
            proof {
                assert(strings_view(pieces@)[j as int].len() > MAX_LEN);
            }
            return false;
        }
        j = j + 1;
    }
    true
}

/// The state behind the multi-line text input.
pub struct TextEditState {
    /// The text, one entry per line.
    text: LineBuffer,
    /// Column of the cursor in its line.
    cursor_pos: u16,
    /// Line of the cursor.
    line_number: u16,
    /// `(line, column)` where the selection starts.
    sel_start_pos: (u16, u16),
    /// `(line, column)` where the selection ends.
    sel_end_pos: (u16, u16),
    scroll_offset: u16,
    content_height: u16,
    selecting: bool,
}

impl View for TextEditState {
    type V = TextEditModel;

    closed spec fn view(&self) -> TextEditModel {
        TextEditModel {
            lines: self.text@,
            line: self.line_number as int,
            column: self.cursor_pos as int,
            selecting: self.selecting,
            sel_start: (self.sel_start_pos.0 as int, self.sel_start_pos.1 as int),
            sel_end: (self.sel_end_pos.0 as int, self.sel_end_pos.1 as int),
            scroll_offset: self.scroll_offset as int,
            content_height: self.content_height as int,
        }
    }
}

impl Clone for TextEditState {
    fn clone(&self) -> (s: TextEditState)
        ensures
            s@ == self@,
    {
        TextEditState {
            text: self.text.clone(),
            cursor_pos: self.cursor_pos,
            line_number: self.line_number,
            sel_start_pos: self.sel_start_pos,
            sel_end_pos: self.sel_end_pos,
            scroll_offset: self.scroll_offset,
            content_height: self.content_height,
            selecting: self.selecting,
        }
    }
}

impl Default for TextEditState {
    fn default() -> (s: TextEditState)
        ensures
            s@ == TextEditModel::initial(),
            s.wf(),
    {
        TextEditState {
            text: LineBuffer::new(),
            cursor_pos: 0,
            line_number: 0,
            sel_start_pos: (0, 0),
            sel_end_pos: (0, 0),
            scroll_offset: 0,
            content_height: 0,
            selecting: false,
        }
    }
}

impl TextEditState {
    /// The editor's invariant, stated on its model.
    pub open spec fn wf(&self) -> bool {
        self@.wf()
    }

    /// Whether the `(line, column)` pair `p` names a position of the text.
    fn is_position(&self, p: (u16, u16)) -> (b: bool)
        ensures
            b == valid_pos(self@.lines, (p.0 as int, p.1 as int)),
    {
        (p.0 as usize) < self.text.len() && p.1 as usize <= self.text.line_len(p.0 as usize)
    }

    /// Checks the editor's invariant.
    pub fn is_wf(&self) -> (b: bool)
        ensures
            b == self.wf(),
    {
        let n = self.text.len();
        if n < 1 || n > MAX_LEN || !self.text.lines_fit(MAX_LEN) {
            return false;
        }
        if !self.is_position((self.line_number, self.cursor_pos)) {
            return false;
        }
        if self.selecting {
            let start = self.sel_start_pos;
            let end = self.sel_end_pos;
            let in_order = start.0 < end.0 || (start.0 == end.0 && start.1 <= end.1);
            self.is_position(start) && self.is_position(end) && in_order
        } else {
            true
        }
    }

    pub fn cursor_pos(&self) -> (c: u16)
        ensures
            c == self@.column,
    {
        self.cursor_pos
    }

    pub fn line_number(&self) -> (l: u16)
        ensures
            l == self@.line,
    {
        self.line_number
    }

    pub fn sel_start_pos(&self) -> (p: (u16, u16))
        ensures
            (p.0 as int, p.1 as int) == self@.sel_start,
    {
        self.sel_start_pos
    }

    pub fn sel_end_pos(&self) -> (p: (u16, u16))
        ensures
            (p.0 as int, p.1 as int) == self@.sel_end,
    {
        self.sel_end_pos
    }

    pub fn scroll_offset(&self) -> (o: u16)
        ensures
            o == self@.scroll_offset,
    {
        self.scroll_offset
    }

    pub fn content_height(&self) -> (h: u16)
        ensures
            h == self@.content_height,
    {
        self.content_height
    }

    pub fn selecting(&self) -> (b: bool)
        ensures
            b == self@.selecting,
    {
        self.selecting
    }

    /// A copy of the line at index `line_number`; empty where there is no
    /// such line.
    pub fn line(&self, line_number: u16) -> (s: String)
        ensures
            s@ == if line_number < self@.lines.len() {
                self@.lines[line_number as int]
            } else {
                Seq::empty()
            },
    {
        if (line_number as usize) < self.text.len() {
            self.text.line(line_number as usize).clone()
        } else {
            String::new()
        }
    }

    /// A copy of the cursor's line.
    pub fn current_line(&self) -> (s: String)
        ensures
            s@ == if self@.line < self@.lines.len() {
                self@.current_line()
            } else {
                Seq::empty()
            },
    {
        self.line(self.line_number)
    }

    /// Number of characters of the line at index `line_number`; `0` where
    /// there is no such line.
    pub fn line_len(&self, line_number: u16) -> (n: usize)
        ensures
            n == if line_number < self@.lines.len() {
                self@.lines[line_number as int].len()
            } else {
                0
            },
    {
        self.text.line_len(line_number as usize)
    }

    /// Number of characters of the cursor's line.
    pub fn current_line_len(&self) -> (n: usize)
        ensures
            n == if self@.line < self@.lines.len() {
                self@.current_line().len()
            } else {
                0
            },
    {
        self.line_len(self.line_number)
    }

    /// The two ends of the selection, if there is one.
    pub fn selection(&self) -> (sel: Option<((u16, u16), (u16, u16))>)
        ensures
            match sel {
                Some((start, end)) => self@.selection() == Some(
                    ((start.0 as int, start.1 as int), (end.0 as int, end.1 as int)),
                ),
                None => self@.selection() is None,
            },
    {
        if self.selecting {
            Some((self.sel_start_pos, self.sel_end_pos))
        } else {
            None
        }
    }

    /// The columns `from..to` of line `line` that are selected, if the
    /// selection touches that line.
    pub fn selected_columns(&self, line: u16) -> (columns: Option<(u16, u16)>)
        requires
            self.wf(),
        ensures
            match columns {
                Some((from, to)) => self@.selected_columns(line as int) == Some(
                    (from as int, to as int),
                ),
                None => self@.selected_columns(line as int) is None,
            },
    {
        if self.selecting && self.sel_start_pos.0 <= line && line <= self.sel_end_pos.0 {
            let from = if line == self.sel_start_pos.0 {
                self.sel_start_pos.1
            } else {
                0
            };
            let to = if line == self.sel_end_pos.0 {
                self.sel_end_pos.1
            } else {
                self.text.line_len(line as usize) as u16
            };
            Some((from, to))
        } else {
            None
        }
    }

    /// Clears the selection.
    pub fn reset_selection(&mut self)
        ensures
            final(self)@ == old(self)@.reset_selection(),
    {
        self.selecting = false;
        self.sel_start_pos = (0, 0);
        self.sel_end_pos = (0, 0);
    }

    /// Moves the scroll offset just far enough for the cursor's line to be
    /// visible.
    fn scroll_to_cursor(&mut self)
        requires
            old(self)@.line < MAX_LEN,
        ensures
            final(self)@ == old(self)@.scroll_to_cursor(),
    {
        if self.line_number < self.scroll_offset {
            self.scroll_offset = self.line_number;
        }
        if self.line_number as u32 >= self.scroll_offset as u32 + self.content_height as u32 {
            self.scroll_offset = self.line_number - self.content_height + 1;
        }
    }

    /// Whether the cursor stands before the start of the selection.
    pub fn cur_before_start(&self) -> (b: bool)
        ensures
            b == self@.cursor_before_start(),
    {
        self.line_number < self.sel_start_pos.0 || (self.line_number == self.sel_start_pos.0
            && self.cursor_pos < self.sel_start_pos.1)
    }

    /// Whether the cursor stands strictly between the ends of the selection.
    pub fn cur_bet_start_and_end(&self) -> (b: bool)
        ensures
            b == self@.cursor_between(),
    {
        let after_start = self.sel_start_pos.0 < self.line_number || (self.sel_start_pos.0
            == self.line_number && self.sel_start_pos.1 < self.cursor_pos);
        let before_end = self.line_number < self.sel_end_pos.0 || (self.line_number
            == self.sel_end_pos.0 && self.cursor_pos < self.sel_end_pos.1);
        after_start && before_end
    }

    /// Whether the cursor stands after the end of the selection.
    pub fn cur_after_end(&self) -> (b: bool)
        ensures
            b == self@.cursor_after_end(),
    {
        self.sel_end_pos.0 < self.line_number || (self.sel_end_pos.0 == self.line_number
            && self.sel_end_pos.1 < self.cursor_pos)
    }

    /// The end of the selection that stays fixed when the cursor moves on.
    fn anchor(&self, forward: bool) -> (a: (u16, u16))
        ensures
            (a.0 as int, a.1 as int) == self@.anchor(forward),
    {
        let cursor = (self.line_number, self.cursor_pos);
        if !self.selecting {
            cursor
        } else if self.cur_before_start() || (cursor.0 == self.sel_start_pos.0 && cursor.1
            == self.sel_start_pos.1) {
            self.sel_end_pos
        } else if self.cur_after_end() || (cursor.0 == self.sel_end_pos.0 && cursor.1
            == self.sel_end_pos.1) {
            self.sel_start_pos
        } else if forward {
            self.sel_start_pos
        } else {
            self.sel_end_pos
        }
    }

    /// Puts the cursor at `to`, extending or clearing the selection.
    fn place_cursor(&mut self, to: (u16, u16), extend: bool, forward: bool)
        ensures
            final(self)@ == old(self)@.place_cursor((to.0 as int, to.1 as int), extend, forward),
    {
        if extend {
            let a = self.anchor(forward);
            let in_order = a.0 < to.0 || (a.0 == to.0 && a.1 <= to.1);
            self.selecting = true;
            if in_order {
                self.sel_start_pos = a;
                self.sel_end_pos = to;
            } else {
                self.sel_start_pos = to;
                self.sel_end_pos = a;
            }
        } else {
            self.reset_selection();
        }
        self.line_number = to.0;
        self.cursor_pos = to.1;
    }

    /// The characters of the cursor's line.
    fn current_chars(&self) -> (chars: Vec<char>)
        requires
            self.wf(),
        ensures
            chars@ == self@.current_line(),
    {
        to_chars(self.text.line(self.line_number as usize).as_str())
    }

    /// Number of characters from the cursor to the first whitespace
    /// character strictly to its right.
    pub fn next_whitespace_len(&self) -> (n: u16)
        requires
            self.wf(),
        ensures
            n == next_whitespace_len(self@.current_line(), self@.column),
    {
        let chars = self.current_chars();
        scan_next_whitespace(&chars, self.cursor_pos as usize) as u16
    }

    /// Number of characters from the cursor back to the first whitespace
    /// character to its left; with `ignore_ws_imm_left`, a whitespace
    /// character immediately left of the cursor is passed over first.
    pub fn prev_whitespace_len(&self, ignore_ws_imm_left: bool) -> (n: u16)
        requires
            self.wf(),
        ensures
            n == prev_whitespace_len(self@.current_line(), self@.column, ignore_ws_imm_left),
    {
        let chars = self.current_chars();
        scan_prev_whitespace(&chars, self.cursor_pos as usize, ignore_ws_imm_left) as u16
    }

    /// Column that a word-wise move to the left reaches from the cursor.
    fn word_left_column(&self) -> (c: u16)
        requires
            self.wf(),
        ensures
            c == word_left_target(self@.current_line(), self@.column),
            c <= self@.column,
    {
        let back = self.prev_whitespace_len(true);
        proof {
            if self@.column > 0 {
                lemma_word_left_target_bounds(self@.current_line(), self@.column);
            }
        }
        if back == self.cursor_pos {
            0
        } else {
            self.cursor_pos - back + 1
        }
    }

    /// Column that a word-wise move to the right reaches from the cursor.
    fn word_right_column(&self) -> (c: u16)
        requires
            self.wf(),
        ensures
            c == word_right_target(self@.current_line(), self@.column),
            self@.column <= c,
            c <= self@.current_line().len() || c == self@.column,
    {
        let len = self.text.line_len(self.line_number as usize);
        if self.cursor_pos as usize >= len {
            self.cursor_pos
        } else {
            proof {
                lemma_word_right_target_bounds(self@.current_line(), self@.column);
            }
            self.cursor_pos + self.next_whitespace_len() + 1
        }
    }

    /// Whether the selection, if any, can be removed: the line that remains
    /// of its first and last line must not be longer than `MAX_LEN`.
    fn can_drop_selection(&self) -> (b: bool)
        requires
            self.wf(),
        ensures
            b == !self@.without_selection().selecting,
            b == (!self@.selecting || self@.selection_remainder().len() <= MAX_LEN),
    {
        if !self.selecting {
            true
        } else {
            let end_len = self.text.line_len(self.sel_end_pos.0 as usize);
            self.sel_start_pos.1 as usize + (end_len - self.sel_end_pos.1 as usize) <= MAX_LEN
        }
    }

    /// For a selection that lies within one line or ends on the line after
    /// the one it starts on: joins what precedes it on its first line with
    /// what follows it on its last line, so that one line remains of the two.
    fn delete_first_and_last_lines_from_selection(&mut self)
        requires
            valid_pos(old(self)@.lines, old(self)@.sel_start),
            valid_pos(old(self)@.lines, old(self)@.sel_end),
            old(self)@.sel_start.0 <= old(self)@.sel_end.0 <= old(self)@.sel_start.0 + 1,
            old(self)@.sel_start.0 == old(self)@.sel_end.0 ==> old(self)@.sel_start.1
                <= old(self)@.sel_end.1,
        ensures
            final(self)@ == (TextEditModel {
                lines: old(self)@.lines.take(old(self)@.sel_start.0).push(
                    old(self)@.selection_remainder(),
                ) + old(self)@.lines.skip(old(self)@.sel_end.0 + 1),
                ..old(self)@
            }),
    {
        let start = self.sel_start_pos;
        let end = self.sel_end_pos;
        let first = self.text.line(start.0 as usize);
        let last = self.text.line(end.0 as usize);
        let last_len = char_count(last);
        let remainder = appended(
            &slice_chars(first, 0, start.1 as usize),
            &slice_chars(last, end.1 as usize, last_len),
        );
        self.text.set_line(start.0 as usize, remainder);
        self.text.remove_lines(start.0 as usize + 1, end.0 as usize + 1);
        proof {
            let m = old(self)@;
            assert(self.text@ =~= m.lines.take(m.sel_start.0).push(m.selection_remainder())
                + m.lines.skip(m.sel_end.0 + 1));
        }
    }

    /// Removes the selected text and puts the cursor where it started: the
    /// lines strictly between the first and the last line of the selection
    /// go first, then what is left of those two lines is joined. Nothing
    /// changes without a selection, or where the line that remains would be
    /// longer than `MAX_LEN`.
    pub fn delete_selected(&mut self)
        requires
            old(self).wf(),
        ensures
            final(self).wf(),
            final(self)@ == old(self)@.delete_selected(),
    {
        proof {
            lemma_delete_selected_wf(self@);
        }
        if !self.selecting || !self.can_drop_selection() {
            return ;
        }
        let start = self.sel_start_pos;
        let end = self.sel_end_pos;
        if end.0 > start.0 + 1 {
            self.text.remove_lines(start.0 as usize + 1, end.0 as usize);
            self.sel_end_pos = (start.0 + 1, end.1);
            proof {
                let m = old(self)@;
                assert(self@.lines[m.sel_start.0 + 1] == m.lines[m.sel_end.0]);
                assert(self@.lines[m.sel_start.0] == m.lines[m.sel_start.0]);
                assert(self@.lines.take(m.sel_start.0) =~= m.lines.take(m.sel_start.0));
                assert(self@.lines.skip(m.sel_start.0 + 2) =~= m.lines.skip(m.sel_end.0 + 1));
            }
        }
        self.delete_first_and_last_lines_from_selection();
        self.line_number = start.0;
        self.cursor_pos = start.1;
        self.reset_selection();
        self.scroll_to_cursor();
    }

    /// Inserts `ch` at the cursor, in place of the selection if there is one,
    /// and moves the cursor past it. Nothing changes where the line would
    /// become longer than `MAX_LEN`.
    pub fn insert_char(&mut self, ch: char)
        requires
            old(self).wf(),
        ensures
            final(self).wf(),
            final(self)@ == old(self)@.insert_char(ch),
    {
        proof {
            lemma_insert_char_wf(self@, ch);
            lemma_delete_selected_wf(self@);
        }
        if !self.can_drop_selection() {
            return ;
        }
        let room = if self.selecting {
            let end_len = self.text.line_len(self.sel_end_pos.0 as usize);
            self.sel_start_pos.1 as usize + (end_len - self.sel_end_pos.1 as usize) < MAX_LEN
        } else {
            self.text.line_len(self.line_number as usize) < MAX_LEN
        };
        if !room {
            return ;
        }
        self.delete_selected();
        self.text.insert_char(self.line_number as usize, self.cursor_pos as usize, ch);
        self.cursor_pos = self.cursor_pos + 1;
    }

    /// Cuts the cursor's line in two at the cursor, the selection removed
    /// first if there is one, and puts the cursor at the start of the second
    /// half. Nothing changes where the text would have more than `MAX_LEN`
    /// lines.
    pub fn new_line(&mut self)
        requires
            old(self).wf(),
        ensures
            final(self).wf(),
            final(self)@ == old(self)@.new_line(),
    {
        proof {
            lemma_new_line_wf(self@);
            lemma_delete_selected_wf(self@);
        }
        if !self.can_drop_selection() {
            return ;
        }
        let count = if self.selecting {
            self.text.len() - (self.sel_end_pos.0 - self.sel_start_pos.0) as usize
        } else {
            self.text.len()
        };
        if count >= MAX_LEN {
            return ;
        }
        self.delete_selected();
        let line = self.line_number as usize;
        let halves = self.text.split_line(line, self.cursor_pos as usize);
        self.text.set_line(line, halves.0);
        self.text.insert_line(line + 1, halves.1);
        self.line_number = self.line_number + 1;
        self.cursor_pos = 0;
        self.scroll_to_cursor();
    }

    /// Backspace. Removes the selection if there is one; else the character
    /// left of the cursor; else, at the start of a line that has one before
    /// it, joins the two lines and puts the cursor at the joint, unless the
    /// joined line would be longer than `MAX_LEN`.
    pub fn delete_char(&mut self)
        requires
            old(self).wf(),
        ensures
            final(self).wf(),
            final(self)@ == old(self)@.delete_char(),
    {
        proof {
            lemma_delete_wf(self@);
        }
        let line = self.line_number as usize;
        if self.selecting {
            self.delete_selected();
        } else if self.cursor_pos > 0 {
            let column = self.cursor_pos as usize;
            self.text.remove_char_range(line, column - 1, column);
            self.cursor_pos = self.cursor_pos - 1;
        } else if self.line_number > 0 {
            let prev_len = self.text.line_len(line - 1);
            if prev_len + self.text.line_len(line) > MAX_LEN {
                return ;
            }
            self.text.join_line(line - 1);
            self.line_number = self.line_number - 1;
            self.cursor_pos = prev_len as u16;
            if self.scroll_offset as usize + self.content_height as usize > self.text.len()
                && self.scroll_offset > 0 {
                self.scroll_offset = self.scroll_offset - 1;
            }
            self.scroll_to_cursor();
        }
    }

    /// Delete. Removes the selection if there is one; else the character at
    /// the cursor; else, at the end of a line that has one after it, joins the
    /// two lines, unless the joined line would be longer than `MAX_LEN`.
    pub fn delete_char_to_right(&mut self)
        requires
            old(self).wf(),
        ensures
            final(self).wf(),
            final(self)@ == old(self)@.delete_char_to_right(),
    {
        proof {
            lemma_delete_wf(self@);
        }
        let line = self.line_number as usize;
        let len = self.text.line_len(line);
        if self.selecting {
            self.delete_selected();
        } else if (self.cursor_pos as usize) < len {
            let column = self.cursor_pos as usize;
            self.text.remove_char_range(line, column, column + 1);
        } else if line + 1 < self.text.len() {
            if len + self.text.line_len(line + 1) > MAX_LEN {
                return ;
            }
            self.text.join_line(line);
            self.scroll_to_cursor();
        }
    }

    /// Removes the selection if there is one; else the characters between
    /// the cursor and the word boundary to its left, within the line.
    pub fn delete_word(&mut self)
        requires
            old(self).wf(),
        ensures
            final(self).wf(),
            final(self)@ == old(self)@.delete_word(),
    {
        proof {
            lemma_delete_wf(self@);
        }
        if self.selecting {
            self.delete_selected();
        } else {
            let from = self.word_left_column();
            self.text.remove_char_range(
                self.line_number as usize,
                from as usize,
                self.cursor_pos as usize,
            );
            self.cursor_pos = from;
        }
    }

    /// Removes the selection if there is one; else the characters between
    /// the cursor and the word boundary to its right, within the line.
    /// Nothing is removed where the length to that boundary is zero: at the
    /// end of a line, and with the cursor before the last character of a
    /// line.
    pub fn delete_word_to_right(&mut self)
        requires
            old(self).wf(),
        ensures
            final(self).wf(),
            final(self)@ == old(self)@.delete_word_to_right(),
    {
        proof {
            lemma_delete_wf(self@);
        }
        if self.selecting {
            self.delete_selected();
        } else if self.next_whitespace_len() > 0 {
            let to = self.word_right_column();
            self.text.remove_char_range(
                self.line_number as usize,
                self.cursor_pos as usize,
                to as usize,
            );
        }
    }

    /// Selects the whole text and puts the cursor at its end.
    pub fn select_all(&mut self)
        requires
            old(self).wf(),
        ensures
            final(self).wf(),
            final(self)@ == old(self)@.select_all(),
    {
        proof {
            lemma_select_all_wf(self@);
        }
        let last = self.text.len() - 1;
        let last_len = self.text.line_len(last);
        self.selecting = true;
        self.sel_start_pos = (0, 0);
        self.sel_end_pos = (last as u16, last_len as u16);
        self.line_number = last as u16;
        self.cursor_pos = last_len as u16;
        self.scroll_to_cursor();
    }

    /// The selected characters, lines separated by line feeds; empty without
    /// a selection.
    pub fn selected_text(&self) -> (r: String)
        requires
            self.wf(),
        ensures
            r@ == self@.selected_text(),
    {
        if !self.selecting {
            return String::new();
        }
        let start = (self.sel_start_pos.0 as usize, self.sel_start_pos.1 as usize);
        let end = (self.sel_end_pos.0 as usize, self.sel_end_pos.1 as usize);
        let first = self.text.line(start.0);
        if start.0 == end.0 {
            return slice_chars(first, start.1, end.1);
        }
        let mut pieces: Vec<String> = Vec::new();
        pieces.push(slice_chars(first, start.1, char_count(first)));
        let mut i: usize = start.0 + 1;
        proof {
            assert(strings_view(pieces@) =~= seq![self@.lines[start.0 as int].skip(start.1 as int)]
                + self@.lines.subrange(start.0 + 1, i as int));
        }
        while i < end.0
            invariant
                start.0 < i <= end.0 < self@.lines.len(),
                self.text@ == self@.lines,
                strings_view(pieces@) == seq![self@.lines[start.0 as int].skip(start.1 as int)]
                    + self@.lines.subrange(start.0 + 1, i as int),
            decreases end.0 - i,
        {
            let line = self.text.line(i).clone();
            proof {
                assert(strings_view(pieces@.push(line)) =~= strings_view(pieces@).push(line@));
                assert(strings_view(pieces@).push(line@) =~= seq![
                    self@.lines[start.0 as int].skip(start.1 as int),
                ] + self@.lines.subrange(start.0 + 1, i + 1));
            }
            pieces.push(line);
            i = i + 1;
        }
        let last = slice_chars(self.text.line(end.0), 0, end.1);
        proof {
            assert(strings_view(pieces@.push(last)) =~= strings_view(pieces@).push(last@));
            assert(strings_view(pieces@).push(last@) =~= lines_between(
                self@.lines,
                self@.sel_start,
                self@.sel_end,
            ));
        }
        pieces.push(last);
        join_all(&pieces)
    }

    /// The whole text, lines separated by line feeds.
    pub fn text(&self) -> (r: String)
        ensures
            r@ == self@.text(),
    {
        self.text.joined()
    }

    /// A copy of the lines of the text.
    pub fn text_vec(&self) -> (v: Vec<String>)
        ensures
            strings_view(v@) == self@.lines,
    {
        self.text.to_vec()
    }

    /// Whether `pieces` can be spliced in at the cursor, the selection
    /// removed first, and leave a text that the editor can hold.
    fn paste_fits(&self, pieces: &Vec<String>) -> (b: bool)
        requires
            self.wf(),
            pieces@.len() >= 1,
        ensures
            b == {
                let s = self@.without_selection();
                !s.selecting && lines_ok(splice_lines(s.lines, s.cursor(), strings_view(pieces@)))
            },
    {
        proof {
            lemma_delete_selected_wf(self@);
        }
        if !self.can_drop_selection() {
            return false;
        }
        let k = pieces.len();
        let column = if self.selecting {
            self.sel_start_pos.1 as usize
        } else {
            self.cursor_pos as usize
        };
        let right_len = if self.selecting {
            self.text.line_len(self.sel_end_pos.0 as usize) - self.sel_end_pos.1 as usize
        } else {
            self.text.line_len(self.line_number as usize) - self.cursor_pos as usize
        };
        let count = if self.selecting {
            self.text.len() - (self.sel_end_pos.0 - self.sel_start_pos.0) as usize
        } else {
            self.text.len()
        };
        let first_len = char_count(&pieces[0]);
        let last_len = char_count(&pieces[k - 1]);
        proof {
            let s = self@.without_selection();
            lemma_splice_lines(s.lines, s.cursor(), strings_view(pieces@));
            assert(s.column == column);
            assert(s.lines.len() == count);
            assert(s.current_line().len() - s.column == right_len);
            assert(strings_view(pieces@)[0].len() == first_len);
            assert(strings_view(pieces@).last().len() == last_len);
        }
        if k > MAX_LEN || count + k - 1 > MAX_LEN || first_len > MAX_LEN || last_len > MAX_LEN {
            return false;
        }
        if k == 1 {
            column + first_len + right_len <= MAX_LEN
        } else {
            column + first_len <= MAX_LEN && last_len + right_len <= MAX_LEN && all_fit(
                pieces,
                1,
                k - 1,
            )
        }
    }

    /// Splices `pieces` in at the cursor and puts the cursor after them.
    fn insert_pieces(&mut self, pieces: &Vec<String>)
        requires
            old(self).wf(),
            !old(self)@.selecting,
            pieces@.len() >= 1,
            lines_ok(splice_lines(old(self)@.lines, old(self)@.cursor(), strings_view(pieces@))),
        ensures
            final(self)@ == (TextEditModel {
                lines: splice_lines(old(self)@.lines, old(self)@.cursor(), strings_view(pieces@)),
                line: old(self)@.line + pieces@.len() - 1,
                column: if pieces@.len() == 1 {
                    old(self)@.column + pieces@[0]@.len()
                } else {
                    pieces@.last()@.len() as int
                },
                ..old(self)@
            }),
    {
        proof {
            lemma_splice_lines(self@.lines, self@.cursor(), strings_view(pieces@));
        }
        let k = pieces.len();
        let line = self.line_number as usize;
        let halves = self.text.split_line(line, self.cursor_pos as usize);
        let ghost before = self.text@;
        let ghost left = halves.0@;
        if k == 1 {
            let first_len = char_count(&pieces[0]);
            let whole = appended(&appended(&halves.0, &pieces[0]), &halves.1);
            self.text.set_line(line, whole);
            self.cursor_pos = self.cursor_pos + first_len as u16;
            proof {
                assert(self.text@ =~= splice_lines(
                    before,
                    old(self)@.cursor(),
                    strings_view(pieces@),
                ));
            }
        } else {
            self.text.set_line(line, appended(&halves.0, &pieces[0]));
            let mut j: usize = 1;
            proof {
                assert(self.text@ =~= before.take(line as int) + (seq![left + pieces@[0]@]
                    + strings_view(pieces@).subrange(1, j as int)) + before.skip(line + 1));
            }
            while j < k - 1
                invariant
                    1 <= j <= k - 1,
                    k == pieces@.len(),
                    line < before.len(),
                    before.len() + k - 1 <= MAX_LEN,
                    self@ == (TextEditModel { lines: self.text@, ..old(self)@ }),
                    self.text@ == before.take(line as int) + (seq![left + pieces@[0]@]
                        + strings_view(pieces@).subrange(1, j as int)) + before.skip(line + 1),
                decreases k - j,
            {
                let piece = pieces[j].clone();
                self.text.insert_line(line + j, piece);
                proof {
                    assert(self.text@ =~= before.take(line as int) + (seq![left + pieces@[0]@]
                        + strings_view(pieces@).subrange(1, j + 1)) + before.skip(line + 1));
                }
                j = j + 1;
            }
            let last_len = char_count(&pieces[k - 1]);
            self.text.insert_line(line + k - 1, appended(&pieces[k - 1], &halves.1));
            self.line_number = (line + k - 1) as u16;
            self.cursor_pos = last_len as u16;
            proof {
                assert(self.text@ =~= splice_lines(
                    before,
                    old(self)@.cursor(),
                    strings_view(pieces@),
                ));
            }
        }
    }

    /// Inserts `content` at the cursor, in place of the selection if there is
    /// one: cut into lines at its line feeds, its carriage returns dropped.
    /// The cursor ends after the inserted text. Nothing changes for empty
    /// content, or where the text would have more than `MAX_LEN` lines or a
    /// line longer than `MAX_LEN`.
    pub fn paste(&mut self, content: &str)
        requires
            old(self).wf(),
        ensures
            final(self).wf(),
            final(self)@ == old(self)@.paste(content@),
    {
        proof {
            lemma_paste_wf(self@, content@);
            lemma_delete_selected_wf(self@);
        }
        if content.is_empty() {
            return ;
        }
        let pieces = split_into_lines(content);
        if !self.paste_fits(&pieces) {
            return ;
        }
        self.delete_selected();
        self.insert_pieces(&pieces);
        self.scroll_to_cursor();
    }

    /// Replaces the text by `text`, or by one empty line where `text` is
    /// empty. The cursor and the selection must lie within the new text.
    pub fn set_text(&mut self, text: Vec<String>)
        requires
            (TextEditModel {
                lines: if text@.len() == 0 {
                    seq![Seq::<char>::empty()]
                } else {
                    strings_view(text@)
                },
                ..old(self)@
            }).wf(),
        ensures
            final(self).wf(),
            final(self)@ == (TextEditModel {
                lines: if text@.len() == 0 {
                    seq![Seq::<char>::empty()]
                } else {
                    strings_view(text@)
                },
                ..old(self)@
            }),
    {
        self.text = LineBuffer::from_lines(text);
    }

    /// Puts the cursor in column `cursor_pos`, which must be within its
    /// line.
    pub fn set_cursor_pos(&mut self, cursor_pos: u16)
        requires
            (TextEditModel { column: cursor_pos as int, ..old(self)@ }).wf(),
        ensures
            final(self).wf(),
            final(self)@ == (TextEditModel { column: cursor_pos as int, ..old(self)@ }),
    {
        self.cursor_pos = cursor_pos;
    }

    /// Puts the cursor on line `line_number`, which must exist and reach to
    /// the cursor's column.
    pub fn set_line_number(&mut self, line_number: u16)
        requires
            (TextEditModel { line: line_number as int, ..old(self)@ }).wf(),
        ensures
            final(self).wf(),
            final(self)@ == (TextEditModel { line: line_number as int, ..old(self)@ }),
    {
        self.line_number = line_number;
    }

    /// Sets the start of the selection. While selecting it must lie within
    /// the text, at or before the end of the selection.
    pub fn set_sel_start_pos(&mut self, sel_start_pos: (u16, u16))
        requires
            (TextEditModel {
                sel_start: (sel_start_pos.0 as int, sel_start_pos.1 as int),
                ..old(self)@
            }).wf(),
        ensures
            final(self).wf(),
            final(self)@ == (TextEditModel {
                sel_start: (sel_start_pos.0 as int, sel_start_pos.1 as int),
                ..old(self)@
            }),
    {
        self.sel_start_pos = sel_start_pos;
    }

    /// Sets the end of the selection. While selecting it must lie within the
    /// text, at or after the start of the selection.
    pub fn set_sel_end_pos(&mut self, sel_end_pos: (u16, u16))
        requires
            (TextEditModel {
                sel_end: (sel_end_pos.0 as int, sel_end_pos.1 as int),
                ..old(self)@
            }).wf(),
        ensures
            final(self).wf(),
            final(self)@ == (TextEditModel {
                sel_end: (sel_end_pos.0 as int, sel_end_pos.1 as int),
                ..old(self)@
            }),
    {
        self.sel_end_pos = sel_end_pos;
    }

    /// Turns the selection on or off. To turn it on, its ends must lie
    /// within the text and be in order.
    pub fn set_selecting(&mut self, selecting: bool)
        requires
            (TextEditModel { selecting, ..old(self)@ }).wf(),
        ensures
            final(self).wf(),
            final(self)@ == (TextEditModel { selecting, ..old(self)@ }),
    {
        self.selecting = selecting;
    }

    /// Sets the first visible line.
    pub fn set_scroll_offset(&mut self, scroll_offset: u16)
        ensures
            final(self)@ == (TextEditModel { scroll_offset: scroll_offset as int, ..old(self)@ }),
            old(self).wf() ==> final(self).wf(),
    {
        self.scroll_offset = scroll_offset;
    }

    /// Sets the number of visible lines and moves the scroll offset so that
    /// the cursor's line stays visible.
    pub fn set_content_height(&mut self, content_height: u16)
        requires
            old(self).wf(),
        ensures
            final(self).wf(),
            final(self)@ == (TextEditModel {
                content_height: content_height as int,
                ..old(self)@
            }).scroll_to_cursor(),
    {
        self.content_height = content_height;
        self.scroll_to_cursor();
    }

    /// Where a move in `move_direction` takes the cursor; its own position
    /// where the move cannot advance.
    fn move_target(&self, move_direction: TextEditMoveDirection, word: bool) -> (to: (u16, u16))
        requires
            self.wf(),
        ensures
            (to.0 as int, to.1 as int) == self@.move_target(move_direction, word),
    {
        let line = self.line_number as usize;
        match move_direction {
            TextEditMoveDirection::Up => {
                if self.line_number > 0 {
                    let len = self.text.line_len(line - 1);
                    let column = if self.cursor_pos as usize > len {
                        len as u16
                    } else {
                        self.cursor_pos
                    };
                    (self.line_number - 1, column)
                } else {
                    (self.line_number, self.cursor_pos)
                }
            },
            TextEditMoveDirection::Down => {
                if line + 1 < self.text.len() {
                    let len = self.text.line_len(line + 1);
                    let column = if self.cursor_pos as usize > len {
                        len as u16
                    } else {
                        self.cursor_pos
                    };
                    (self.line_number + 1, column)
                } else {
                    (self.line_number, self.cursor_pos)
                }
            },
            TextEditMoveDirection::Left => {
                if self.cursor_pos > 0 {
                    let column = if word {
                        self.word_left_column()
                    } else {
                        self.cursor_pos - 1
                    };
                    (self.line_number, column)
                } else {
                    (self.line_number, self.cursor_pos)
                }
            },
            TextEditMoveDirection::Right => {
                if (self.cursor_pos as usize) < self.text.line_len(line) {
                    let column = if word {
                        self.word_right_column()
                    } else {
                        self.cursor_pos + 1
                    };
                    (self.line_number, column)
                } else {
                    (self.line_number, self.cursor_pos)
                }
            },
            TextEditMoveDirection::Home => (self.line_number, 0),
            TextEditMoveDirection::End => (self.line_number, self.text.line_len(line) as u16),
        }
    }

    /// Moves the cursor one step in `move_direction`: by a character or, with
    /// `word`, to the next word boundary; by a line, keeping the column as
    /// far as the new line reaches; or to the start or end of the line. With
    /// `select` the selection is extended to the new position, else it is
    /// cleared. Where the cursor cannot advance it stays, and the selection
    /// is extended or cleared all the same. After `Up` and `Down` the scroll
    /// offset follows the cursor.
    pub fn move_cursor(&mut self, move_direction: TextEditMoveDirection, word: bool, select: bool)
        requires
            old(self).wf(),
        ensures
            final(self).wf(),
            final(self)@ == old(self)@.move_cursor(move_direction, word, select),
    {
        proof {
            lemma_move_cursor_wf(self@, move_direction, word, select);
        }
        let to = self.move_target(move_direction, word);
        match move_direction {
            TextEditMoveDirection::Up => {
                self.place_cursor(to, select, false);
                self.scroll_to_cursor();
            },
            TextEditMoveDirection::Down => {
                self.place_cursor(to, select, true);
                self.scroll_to_cursor();
            },
            TextEditMoveDirection::Left => {
                self.place_cursor(to, select, false);
            },
            TextEditMoveDirection::Right => {
                self.place_cursor(to, select, true);
            },
            TextEditMoveDirection::Home => {
                self.place_cursor(to, select, false);
            },
            TextEditMoveDirection::End => {
                self.place_cursor(to, select, true);
            },
        }
    }
}

} // verus!
