//! The mathematical model of the text editor: what each command does to the
//! lines, the cursor, the selection and the scroll offset.

use vstd::prelude::*;
use crate::text_edit::TextEditMoveDirection;
use crate::words::{next_whitespace_len, word_left_target, word_right_target};

verus! {

/// Greatest number of lines of a text, and of characters of a line: line
/// numbers and columns are 16-bit.
pub const MAX_LEN: usize = 65535;

/// Line-major, then column-major order on `(line, column)` positions.
pub open spec fn pos_lt(a: (int, int), b: (int, int)) -> bool {
    a.0 < b.0 || (a.0 == b.0 && a.1 < b.1)
}

pub open spec fn pos_le(a: (int, int), b: (int, int)) -> bool {
    a == b || pos_lt(a, b)
}

/// `p` names a line of `lines` and a column of it, the column after the last
/// character included.
pub open spec fn valid_pos(lines: Seq<Seq<char>>, p: (int, int)) -> bool {
    &&& 0 <= p.0 < lines.len()
    &&& 0 <= p.1 <= lines[p.0].len()
}

/// `lines` is a text the editor can hold: at least one line, and neither
/// more lines nor longer lines than `MAX_LEN`.
pub open spec fn lines_ok(lines: Seq<Seq<char>>) -> bool {
    &&& 1 <= lines.len() <= MAX_LEN
    &&& forall|i: int| 0 <= i < lines.len() ==> (#[trigger] lines[i]).len() <= MAX_LEN
}

/// The scroll offset that keeps `line` visible: unchanged where `line` is
/// within the `height` lines from `offset` on, else moved just far enough.
pub open spec fn scroll_clamp(offset: int, height: int, line: int) -> int {
    let top = if line < offset {
        line
    } else {
        offset
    };
    if line >= top + height {
        line - height + 1
    } else {
        top
    }
}

/// The lines joined by line feeds.
pub open spec fn join_lines(lines: Seq<Seq<char>>) -> Seq<char>
    decreases lines.len(),
{
    if lines.len() == 0 {
        Seq::empty()
    } else if lines.len() == 1 {
        lines[0]
    } else {
        join_lines(lines.drop_last()) + seq!['\n'] + lines.last()
    }
}

/// The lines that `s` is cut into at its line feeds, carriage returns
/// dropped. There is always at least one line.
pub open spec fn split_lines(s: Seq<char>) -> Seq<Seq<char>>
    decreases s.len(),
{
    if s.len() == 0 {
        seq![Seq::empty()]
    } else {
        let head = split_lines(s.drop_last());
        let c = s.last();
        if c == '\r' {
            head
        } else if c == '\n' {
            head.push(Seq::empty())
        } else {
            head.update(head.len() - 1, head.last().push(c))
        }
    }
}

/// The pieces of `lines` from position `start` up to, not including,
/// position `end`: one piece per line touched.
pub open spec fn lines_between(lines: Seq<Seq<char>>, start: (int, int), end: (int, int)) -> Seq<
    Seq<char>,
> {
    if start.0 == end.0 {
        seq![lines[start.0].subrange(start.1, end.1)]
    } else {
        seq![lines[start.0].skip(start.1)] + lines.subrange(start.0 + 1, end.0) + seq![
            lines[end.0].take(end.1),
        ]
    }
}

/// `lines` with `pieces` spliced in at position `at`: the first piece joins
/// the text left of `at`, the last piece the text right of it.
pub open spec fn splice_lines(lines: Seq<Seq<char>>, at: (int, int), pieces: Seq<Seq<char>>) -> Seq<
    Seq<char>,
> {
    let left = lines[at.0].take(at.1);
    let right = lines[at.0].skip(at.1);
    let middle = if pieces.len() == 1 {
        seq![left + pieces[0] + right]
    } else {
        seq![left + pieces[0]] + pieces.subrange(1, pieces.len() - 1) + seq![pieces.last() + right]
    };
    lines.take(at.0) + middle + lines.skip(at.0 + 1)
}

/// Whether a move in `direction` goes towards the end of the text.
pub open spec fn is_forward(direction: TextEditMoveDirection) -> bool {
    match direction {
        TextEditMoveDirection::Right | TextEditMoveDirection::Down | TextEditMoveDirection::End => true,
        _ => false,
    }
}

/// The editor's state as plain mathematics.
pub struct TextEditModel {
    /// The text, one entry per line.
    pub lines: Seq<Seq<char>>,
    /// Line of the cursor.
    pub line: int,
    /// Column of the cursor within its line.
    pub column: int,
    /// Whether a selection exists.
    pub selecting: bool,
    /// Lesser end of the selection.
    pub sel_start: (int, int),
    /// Greater end of the selection; the selection does not include it.
    pub sel_end: (int, int),
    /// First visible line.
    pub scroll_offset: int,
    /// Number of visible lines.
    pub content_height: int,
}

impl TextEditModel {
    pub open spec fn cursor(self) -> (int, int) {
        (self.line, self.column)
    }

    pub open spec fn current_line(self) -> Seq<char> {
        self.lines[self.line]
    }

    /// The invariant of the editor: the text is never empty, the cursor is
    /// on a line and within it, and a selection lies within the text with its
    /// ends in order. Every number fits in 16 bits.
    pub open spec fn wf(self) -> bool {
        &&& lines_ok(self.lines)
        &&& valid_pos(self.lines, self.cursor())
        &&& self.selecting ==> {
            &&& valid_pos(self.lines, self.sel_start)
            &&& valid_pos(self.lines, self.sel_end)
            &&& pos_le(self.sel_start, self.sel_end)
        }
        &&& 0 <= self.sel_start.0 <= MAX_LEN
        &&& 0 <= self.sel_start.1 <= MAX_LEN
        &&& 0 <= self.sel_end.0 <= MAX_LEN
        &&& 0 <= self.sel_end.1 <= MAX_LEN
        &&& 0 <= self.scroll_offset <= MAX_LEN
        &&& 0 <= self.content_height <= MAX_LEN
    }

    /// The cursor's line is among the visible ones.
    pub open spec fn cursor_visible(self) -> bool {
        self.scroll_offset <= self.line < self.scroll_offset + self.content_height
    }

    /// The state of a new editor: one empty line, everything else zero.
    pub open spec fn initial() -> Self {
        TextEditModel {
            lines: seq![Seq::empty()],
            line: 0,
            column: 0,
            selecting: false,
            sel_start: (0, 0),
            sel_end: (0, 0),
            scroll_offset: 0,
            content_height: 0,
        }
    }

    pub open spec fn reset_selection(self) -> Self {
        TextEditModel { selecting: false, sel_start: (0, 0), sel_end: (0, 0), ..self }
    }

    /// The scroll offset follows the cursor's line.
    pub open spec fn scroll_to_cursor(self) -> Self {
        TextEditModel {
            scroll_offset: scroll_clamp(self.scroll_offset, self.content_height, self.line),
            ..self
        }
    }

    /// After a line was removed above the bottom of the viewport, the
    /// viewport moves up by one line if it would reach past the text.
    pub open spec fn scroll_up_after_join(self) -> Self {
        if self.scroll_offset + self.content_height > self.lines.len() && self.scroll_offset > 0 {
            TextEditModel { scroll_offset: self.scroll_offset - 1, ..self }
        } else {
            self
        }
    }

    pub open spec fn cursor_before_start(self) -> bool {
        pos_lt(self.cursor(), self.sel_start)
    }

    pub open spec fn cursor_between(self) -> bool {
        pos_lt(self.sel_start, self.cursor()) && pos_lt(self.cursor(), self.sel_end)
    }

    pub open spec fn cursor_after_end(self) -> bool {
        pos_lt(self.sel_end, self.cursor())
    }

    /// The end of the selection that stays fixed when the cursor moves on
    /// with the selection extended. Without a selection it is the cursor
    /// itself. A cursor at or before the start holds the start, so the end is
    /// fixed; a cursor at or after the end holds the end. A cursor strictly
    /// inside takes over the end that lies in the direction of travel.
    pub open spec fn anchor(self, forward: bool) -> (int, int) {
        if !self.selecting {
            self.cursor()
        } else if self.cursor_before_start() || self.cursor() == self.sel_start {
            self.sel_end
        } else if self.cursor_after_end() || self.cursor() == self.sel_end {
            self.sel_start
        } else if forward {
            self.sel_start
        } else {
            self.sel_end
        }
    }

    /// The cursor goes to `to`. With `extend` the selection then spans from
    /// the anchor to `to`, its ends in order; without, it is cleared.
    pub open spec fn place_cursor(self, to: (int, int), extend: bool, forward: bool) -> Self {
        if extend {
            let a = self.anchor(forward);
            TextEditModel {
                line: to.0,
                column: to.1,
                selecting: true,
                sel_start: if pos_le(a, to) {
                    a
                } else {
                    to
                },
                sel_end: if pos_le(a, to) {
                    to
                } else {
                    a
                },
                ..self
            }
        } else {
            TextEditModel { line: to.0, column: to.1, ..self.reset_selection() }
        }
    }

    /// Whether the cursor can advance in `direction`: not up from the first
    /// line, down from the last, left from the start of a line or right from
    /// its end. `Home` and `End` always apply.
    pub open spec fn can_move(self, direction: TextEditMoveDirection) -> bool {
        match direction {
            TextEditMoveDirection::Up => self.line > 0,
            TextEditMoveDirection::Down => self.line + 1 < self.lines.len(),
            TextEditMoveDirection::Left => self.column > 0,
            TextEditMoveDirection::Right => self.column < self.current_line().len(),
            TextEditMoveDirection::Home | TextEditMoveDirection::End => true,
        }
    }

    /// Where a move in `direction` takes the cursor that can advance.
    /// Vertical moves keep the column as far as the new line reaches.
    pub open spec fn advance_target(self, direction: TextEditMoveDirection, word: bool) -> (
        int,
        int,
    ) {
        match direction {
            TextEditMoveDirection::Up => (
                self.line - 1,
                if self.column > self.lines[self.line - 1].len() {
                    self.lines[self.line - 1].len() as int
                } else {
                    self.column
                },
            ),
            TextEditMoveDirection::Down => (
                self.line + 1,
                if self.column > self.lines[self.line + 1].len() {
                    self.lines[self.line + 1].len() as int
                } else {
                    self.column
                },
            ),
            TextEditMoveDirection::Left => (
                self.line,
                if word {
                    word_left_target(self.current_line(), self.column)
                } else {
                    self.column - 1
                },
            ),
            TextEditMoveDirection::Right => (
                self.line,
                if word {
                    word_right_target(self.current_line(), self.column)
                } else {
                    self.column + 1
                },
            ),
            TextEditMoveDirection::Home => (self.line, 0),
            TextEditMoveDirection::End => (self.line, self.current_line().len() as int),
        }
    }

    /// Where a move in `direction` takes the cursor: a move that cannot
    /// advance is clamped to the cursor's own position.
    pub open spec fn move_target(self, direction: TextEditMoveDirection, word: bool) -> (int, int) {
        if self.can_move(direction) {
            self.advance_target(direction, word)
        } else {
            self.cursor()
        }
    }

    /// One cursor movement. The cursor goes to the target of the move, and
    /// the selection is extended to it or cleared. That holds of a move that
    /// cannot advance too: the cursor stays, and a move without `extend`
    /// still clears the selection. After `Up` and `Down` the scroll offset
    /// follows the cursor.
    pub open spec fn move_cursor(
        self,
        direction: TextEditMoveDirection,
        word: bool,
        extend: bool,
    ) -> Self {
        let moved = self.place_cursor(
            self.move_target(direction, word),
            extend,
            is_forward(direction),
        );
        match direction {
            TextEditMoveDirection::Up | TextEditMoveDirection::Down => moved.scroll_to_cursor(),
            _ => moved,
        }
    }

    /// The selection spans the whole text and the cursor stands at its end.
    pub open spec fn select_all(self) -> Self {
        let last = self.lines.len() - 1;
        TextEditModel {
            line: last,
            column: self.lines[last].len() as int,
            selecting: true,
            sel_start: (0, 0),
            sel_end: (last, self.lines[last].len() as int),
            ..self
        }.scroll_to_cursor()
    }

    /// The selected characters, lines separated by line feeds; empty without
    /// a selection.
    pub open spec fn selected_text(self) -> Seq<char> {
        if self.selecting {
            join_lines(lines_between(self.lines, self.sel_start, self.sel_end))
        } else {
            Seq::empty()
        }
    }

    /// The selection as its two ends, if there is one.
    pub open spec fn selection(self) -> Option<((int, int), (int, int))> {
        if self.selecting {
            Some((self.sel_start, self.sel_end))
        } else {
            None
        }
    }

    /// The columns `from..to` of line `line` that are selected, if the
    /// selection touches that line.
    pub open spec fn selected_columns(self, line: int) -> Option<(int, int)> {
        if self.selecting && self.sel_start.0 <= line <= self.sel_end.0 {
            Some(
                (
                    if line == self.sel_start.0 {
                        self.sel_start.1
                    } else {
                        0
                    },
                    if line == self.sel_end.0 {
                        self.sel_end.1
                    } else {
                        self.lines[line].len() as int
                    },
                ),
            )
        } else {
            None
        }
    }

    /// The whole text, lines separated by line feeds.
    pub open spec fn text(self) -> Seq<char> {
        join_lines(self.lines)
    }

    /// The line that remains of the first and last line of the selection
    /// once the selection is removed.
    pub open spec fn selection_remainder(self) -> Seq<char> {
        self.lines[self.sel_start.0].take(self.sel_start.1) + self.lines[self.sel_end.0].skip(
            self.sel_end.1,
        )
    }

    /// Removes the selected text: what precedes the selection on its first
    /// line is joined with what follows it on its last line, and the lines in
    /// between go. The cursor moves to where the selection started, the
    /// selection is cleared and the scroll offset follows. Nothing changes
    /// without a selection, or where the joined line would be longer than
    /// `MAX_LEN`.
    pub open spec fn delete_selected(self) -> Self {
        if !self.selecting || self.selection_remainder().len() > MAX_LEN {
            self
        } else {
            TextEditModel {
                lines: self.lines.take(self.sel_start.0).push(self.selection_remainder())
                    + self.lines.skip(self.sel_end.0 + 1),
                line: self.sel_start.0,
                column: self.sel_start.1,
                ..self.reset_selection()
            }.scroll_to_cursor()
        }
    }

    /// The state an edit starts from: the selection, if any, removed. Where
    /// that is refused the result is still selecting.
    pub open spec fn without_selection(self) -> Self {
        if self.selecting {
            self.delete_selected()
        } else {
            self
        }
    }

    /// Replaces the selection, if any, by `ch`, or inserts `ch` at the
    /// cursor; the cursor ends after it. Nothing changes where the line
    /// would become longer than `MAX_LEN`.
    pub open spec fn insert_char(self, ch: char) -> Self {
        let s = self.without_selection();
        if s.selecting || s.current_line().len() >= MAX_LEN {
            self
        } else {
            TextEditModel {
                lines: s.lines.update(s.line, s.current_line().insert(s.column, ch)),
                column: s.column + 1,
                ..s
            }
        }
    }

    /// Removes the selection, if any, then cuts the cursor's line in two at
    /// the cursor. The cursor ends at the start of the second half and the
    /// scroll offset follows. Nothing changes where the text would have more
    /// than `MAX_LEN` lines.
    pub open spec fn new_line(self) -> Self {
        let s = self.without_selection();
        if s.selecting || s.lines.len() >= MAX_LEN {
            self
        } else {
            TextEditModel {
                lines: s.lines.update(s.line, s.current_line().take(s.column)).insert(
                    s.line + 1,
                    s.current_line().skip(s.column),
                ),
                line: s.line + 1,
                column: 0,
                ..s
            }.scroll_to_cursor()
        }
    }

    /// Appends the cursor's line to the line before it. The cursor ends at
    /// the joint. Nothing changes where the joined line would be longer than
    /// `MAX_LEN`.
    pub open spec fn join_with_previous(self) -> Self {
        let prev = self.lines[self.line - 1];
        if prev.len() + self.current_line().len() > MAX_LEN {
            self
        } else {
            TextEditModel {
                lines: self.lines.update(self.line - 1, prev + self.current_line()).remove(
                    self.line,
                ),
                line: self.line - 1,
                column: prev.len() as int,
                ..self
            }.scroll_up_after_join().scroll_to_cursor()
        }
    }

    /// Appends the line after the cursor's to the cursor's line. Nothing
    /// changes where the joined line would be longer than `MAX_LEN`.
    pub open spec fn join_with_next(self) -> Self {
        let next = self.lines[self.line + 1];
        if self.current_line().len() + next.len() > MAX_LEN {
            self
        } else {
            TextEditModel {
                lines: self.lines.update(self.line, self.current_line() + next).remove(
                    self.line + 1,
                ),
                ..self
            }.scroll_to_cursor()
        }
    }

    /// The cursor's line loses the columns `from..to`; the cursor ends at
    /// `from`.
    pub open spec fn remove_columns(self, from: int, to: int) -> Self {
        TextEditModel {
            lines: self.lines.update(
                self.line,
                self.current_line().take(from) + self.current_line().skip(to),
            ),
            column: from,
            ..self
        }
    }

    /// Backspace: a selection is removed; else the character left of the
    /// cursor; else, at the start of a line that has one before it, the two
    /// lines are joined.
    pub open spec fn delete_char(self) -> Self {
        if self.selecting {
            self.delete_selected()
        } else if self.column > 0 {
            self.remove_columns(self.column - 1, self.column)
        } else if self.line > 0 {
            self.join_with_previous()
        } else {
            self
        }
    }

    /// Delete: a selection is removed; else the character at the cursor;
    /// else, at the end of a line that has one after it, the two lines are
    /// joined.
    pub open spec fn delete_char_to_right(self) -> Self {
        if self.selecting {
            self.delete_selected()
        } else if self.column < self.current_line().len() {
            TextEditModel { column: self.column, ..self.remove_columns(self.column, self.column + 1) }
        } else if self.line + 1 < self.lines.len() {
            self.join_with_next()
        } else {
            self
        }
    }

    /// A selection is removed; else the characters between the cursor and
    /// the word boundary to its left. Never reaches into another line.
    pub open spec fn delete_word(self) -> Self {
        if self.selecting {
            self.delete_selected()
        } else {
            self.remove_columns(word_left_target(self.current_line(), self.column), self.column)
        }
    }

    /// A selection is removed; else the characters between the cursor and
    /// the word boundary to its right, where the length to that boundary is
    /// not zero. It is zero at the end of a line and with the cursor before
    /// the last character of a line: nothing is removed there. Never reaches
    /// into another line.
    pub open spec fn delete_word_to_right(self) -> Self {
        if self.selecting {
            self.delete_selected()
        } else if next_whitespace_len(self.current_line(), self.column) > 0 {
            self.remove_columns(self.column, word_right_target(self.current_line(), self.column))
        } else {
            self
        }
    }

    /// Replaces the selection, if any, by `content`, or inserts `content` at
    /// the cursor, cut into lines at its line feeds. The cursor ends after
    /// the inserted text and the scroll offset follows. Nothing changes for
    /// empty content, or where the text would no longer fit.
    pub open spec fn paste(self, content: Seq<char>) -> Self {
        let s = self.without_selection();
        let pieces = split_lines(content);
        let lines = splice_lines(s.lines, s.cursor(), pieces);
        if content.len() == 0 || s.selecting || !lines_ok(lines) {
            self
        } else {
            TextEditModel {
                lines,
                line: s.line + pieces.len() - 1,
                column: if pieces.len() == 1 {
                    s.column + pieces[0].len()
                } else {
                    pieces.last().len() as int
                },
                ..s
            }.scroll_to_cursor()
        }
    }
}

} // verus!
