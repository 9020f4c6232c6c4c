//! What holds of the editor's commands: the invariant is kept by each of
//! them, the viewport follows the cursor, and some commands undo or absorb
//! others.

use vstd::prelude::*;
use crate::text_edit::TextEditMoveDirection;
use crate::text_model::{
    is_forward, lines_ok, pos_le, scroll_clamp, splice_lines, split_lines, valid_pos,
    TextEditModel, MAX_LEN,
};
use crate::words::{lemma_word_left_target_bounds, lemma_word_right_target_bounds};

verus! {

/// A new editor satisfies the invariant.
pub proof fn lemma_initial_wf()
    ensures
        TextEditModel::initial().wf(),
{
}

/// The clamped scroll offset shows `line` whenever the viewport has any
/// height, and is a 16-bit number whenever `line` and `offset` are.
pub proof fn lemma_scroll_clamp(offset: int, height: int, line: int)
    requires
        0 <= offset <= MAX_LEN,
        0 <= height,
        0 <= line < MAX_LEN,
    ensures
        0 <= scroll_clamp(offset, height, line) <= MAX_LEN,
        height > 0 ==> scroll_clamp(offset, height, line) <= line < scroll_clamp(
            offset,
            height,
            line,
        ) + height,
{
}

/// Following the cursor keeps the invariant and, in a viewport that has any
/// height, makes the cursor's line visible.
pub proof fn lemma_scroll_to_cursor(m: TextEditModel)
    requires
        m.wf(),
    ensures
        m.scroll_to_cursor().wf(),
        m.content_height > 0 ==> m.scroll_to_cursor().cursor_visible(),
{
}

/// Placing the cursor on a position of the text keeps the invariant; with
/// `extend` the cursor then stands at one end of the selection.
pub proof fn lemma_place_cursor(m: TextEditModel, to: (int, int), extend: bool, forward: bool)
    requires
        m.wf(),
        valid_pos(m.lines, to),
    ensures
        m.place_cursor(to, extend, forward).wf(),
        m.place_cursor(to, extend, forward).cursor() == to,
        m.place_cursor(to, extend, forward).selecting == extend,
        extend ==> {
            ||| m.place_cursor(to, extend, forward).sel_start == to
            ||| m.place_cursor(to, extend, forward).sel_end == to
        },
{
}

/// The target of a move is a position of the text.
pub proof fn lemma_move_target_valid(m: TextEditModel, direction: TextEditMoveDirection, word: bool)
    requires
        m.wf(),
    ensures
        valid_pos(m.lines, m.move_target(direction, word)),
{
    if m.can_move(direction) {
        match direction {
            TextEditMoveDirection::Left => {
                lemma_word_left_target_bounds(m.current_line(), m.column);
            },
            TextEditMoveDirection::Right => {
                lemma_word_right_target_bounds(m.current_line(), m.column);
            },
            _ => {},
        }
    }
}

/// Cursor movement keeps the invariant and the text. After `Up` and `Down`,
/// in a viewport that has any height, the cursor's line is visible.
pub proof fn lemma_move_cursor_wf(
    m: TextEditModel,
    direction: TextEditMoveDirection,
    word: bool,
    extend: bool,
)
    requires
        m.wf(),
    ensures
        m.move_cursor(direction, word, extend).wf(),
        m.move_cursor(direction, word, extend).lines == m.lines,
        (direction == TextEditMoveDirection::Up || direction == TextEditMoveDirection::Down)
            && m.content_height > 0 ==> m.move_cursor(direction, word, extend).cursor_visible(),
{
    let to = m.move_target(direction, word);
    lemma_move_target_valid(m, direction, word);
    lemma_place_cursor(m, to, extend, is_forward(direction));
    lemma_scroll_to_cursor(m.place_cursor(to, extend, is_forward(direction)));
}

/// A move without `extend` leaves no selection, whether or not the cursor
/// could advance: both ends of the selection are reset.
pub proof fn lemma_move_without_extend_clears_selection(
    m: TextEditModel,
    direction: TextEditMoveDirection,
    word: bool,
)
    requires
        m.wf(),
    ensures
        !m.move_cursor(direction, word, false).selecting,
        m.move_cursor(direction, word, false).sel_start == (0int, 0int),
        m.move_cursor(direction, word, false).sel_end == (0int, 0int),
        !m.can_move(direction) ==> m.move_cursor(direction, word, false).cursor() == m.cursor(),
{
}

/// A move with `extend` leaves a selection that spans from the anchor to the
/// cursor, whether or not the cursor could advance. From a state without a
/// selection the anchor is where the cursor stood before the move.
pub proof fn lemma_move_with_extend_selects(
    m: TextEditModel,
    direction: TextEditMoveDirection,
    word: bool,
)
    requires
        m.wf(),
    ensures
        m.move_cursor(direction, word, true).selecting,
        !m.selecting ==> {
            let r = m.move_cursor(direction, word, true);
            if pos_le(m.cursor(), r.cursor()) {
                r.sel_start == m.cursor() && r.sel_end == r.cursor()
            } else {
                r.sel_start == r.cursor() && r.sel_end == m.cursor()
            }
        },
{
}

/// Moving the cursor `Home` twice gives the same state as moving it once.
pub proof fn lemma_home_idempotent(m: TextEditModel, word: bool, extend: bool)
    requires
        m.wf(),
    ensures
        m.move_cursor(TextEditMoveDirection::Home, word, extend).move_cursor(
            TextEditMoveDirection::Home,
            word,
            extend,
        ) == m.move_cursor(TextEditMoveDirection::Home, word, extend),
{
}

/// Moving the cursor `End` twice gives the same state as moving it once.
pub proof fn lemma_end_idempotent(m: TextEditModel, word: bool, extend: bool)
    requires
        m.wf(),
    ensures
        m.move_cursor(TextEditMoveDirection::End, word, extend).move_cursor(
            TextEditMoveDirection::End,
            word,
            extend,
        ) == m.move_cursor(TextEditMoveDirection::End, word, extend),
{
}

/// Selecting everything keeps the invariant.
pub proof fn lemma_select_all_wf(m: TextEditModel)
    requires
        m.wf(),
    ensures
        m.select_all().wf(),
        m.select_all().lines == m.lines,
        m.content_height > 0 ==> m.select_all().cursor_visible(),
{
}

/// Removing the selection keeps the invariant, and leaves no selection
/// unless it was refused. The text never becomes empty.
pub proof fn lemma_delete_selected_wf(m: TextEditModel)
    requires
        m.wf(),
    ensures
        m.delete_selected().wf(),
        m.delete_selected().lines.len() >= 1,
        m.delete_selected().selecting ==> m.delete_selected() == m,
        m.content_height > 0 && m.selecting && !m.delete_selected().selecting
            ==> m.delete_selected().cursor_visible(),
{
    if m.selecting && m.selection_remainder().len() <= MAX_LEN {
        let r = m.delete_selected();
        assert(r.lines.len() == m.sel_start.0 + 1 + (m.lines.len() - m.sel_end.0 - 1));
        assert forall|i: int| 0 <= i < r.lines.len() implies (#[trigger] r.lines[i]).len()
            <= MAX_LEN by {
            if i < m.sel_start.0 {
                assert(r.lines[i] == m.lines[i]);
            } else if i == m.sel_start.0 {
                assert(r.lines[i] == m.selection_remainder());
            } else {
                assert(r.lines[i] == m.lines[i - m.sel_start.0 + m.sel_end.0]);
            }
        }
        assert(r.lines[r.line] == m.selection_remainder());
    }
}

/// Inserting a character keeps the invariant.
pub proof fn lemma_insert_char_wf(m: TextEditModel, ch: char)
    requires
        m.wf(),
    ensures
        m.insert_char(ch).wf(),
{
    lemma_delete_selected_wf(m);
    let s = m.without_selection();
    if !s.selecting && s.current_line().len() < MAX_LEN {
        let r = m.insert_char(ch);
        assert forall|i: int| 0 <= i < r.lines.len() implies (#[trigger] r.lines[i]).len()
            <= MAX_LEN by {
            if i != s.line {
                assert(r.lines[i] == s.lines[i]);
            }
        }
    }
}

/// Starting a new line keeps the invariant; in a viewport that has any
/// height the cursor's line is then visible.
pub proof fn lemma_new_line_wf(m: TextEditModel)
    requires
        m.wf(),
    ensures
        m.new_line().wf(),
        m.content_height > 0 && m.new_line() != m ==> m.new_line().cursor_visible(),
{
    lemma_delete_selected_wf(m);
    let s = m.without_selection();
    if !s.selecting && s.lines.len() < MAX_LEN {
        let r = m.new_line();
        assert forall|i: int| 0 <= i < r.lines.len() implies (#[trigger] r.lines[i]).len()
            <= MAX_LEN by {
            if i < s.line {
                assert(r.lines[i] == s.lines[i]);
            } else if i == s.line {
                assert(r.lines[i] == s.current_line().take(s.column));
            } else if i == s.line + 1 {
                assert(r.lines[i] == s.current_line().skip(s.column));
            } else {
                assert(r.lines[i] == s.lines[i - 1]);
            }
        }
    }
}

/// Removing columns of the cursor's line keeps the invariant where no
/// selection exists.
pub proof fn lemma_remove_columns_wf(m: TextEditModel, from: int, to: int)
    requires
        m.wf(),
        !m.selecting,
        0 <= from <= to <= m.current_line().len(),
    ensures
        m.remove_columns(from, to).wf(),
{
    let r = m.remove_columns(from, to);
    assert forall|i: int| 0 <= i < r.lines.len() implies (#[trigger] r.lines[i]).len()
        <= MAX_LEN by {
        if i != m.line {
            assert(r.lines[i] == m.lines[i]);
        }
    }
}

/// Joining the cursor's line to the one before it keeps the invariant; in a
/// viewport that has any height the cursor's line is then visible.
pub proof fn lemma_join_with_previous_wf(m: TextEditModel)
    requires
        m.wf(),
        !m.selecting,
        m.line > 0,
    ensures
        m.join_with_previous().wf(),
        m.content_height > 0 && m.join_with_previous() != m
            ==> m.join_with_previous().cursor_visible(),
{
    let prev = m.lines[m.line - 1];
    if prev.len() + m.current_line().len() <= MAX_LEN {
        let r = m.join_with_previous();
        assert forall|i: int| 0 <= i < r.lines.len() implies (#[trigger] r.lines[i]).len()
            <= MAX_LEN by {
            if i < m.line - 1 {
                assert(r.lines[i] == m.lines[i]);
            } else if i == m.line - 1 {
                assert(r.lines[i] == prev + m.current_line());
            } else {
                assert(r.lines[i] == m.lines[i + 1]);
            }
        }
    }
}

/// Joining the line after the cursor's to the cursor's line keeps the
/// invariant.
pub proof fn lemma_join_with_next_wf(m: TextEditModel)
    requires
        m.wf(),
        !m.selecting,
        m.line + 1 < m.lines.len(),
    ensures
        m.join_with_next().wf(),
        m.content_height > 0 && m.join_with_next() != m ==> m.join_with_next().cursor_visible(),
{
    let next = m.lines[m.line + 1];
    if m.current_line().len() + next.len() <= MAX_LEN {
        let r = m.join_with_next();
        assert forall|i: int| 0 <= i < r.lines.len() implies (#[trigger] r.lines[i]).len()
            <= MAX_LEN by {
            if i < m.line {
                assert(r.lines[i] == m.lines[i]);
            } else if i == m.line {
                assert(r.lines[i] == m.current_line() + next);
            } else {
                assert(r.lines[i] == m.lines[i + 1]);
            }
        }
    }
}

/// Each of the four deletions keeps the invariant, and none empties the
/// text.
pub proof fn lemma_delete_wf(m: TextEditModel)
    requires
        m.wf(),
    ensures
        m.delete_char().wf(),
        m.delete_char_to_right().wf(),
        m.delete_word().wf(),
        m.delete_word_to_right().wf(),
        m.delete_char().lines.len() >= 1,
        m.delete_char_to_right().lines.len() >= 1,
        m.delete_word().lines.len() >= 1,
        m.delete_word_to_right().lines.len() >= 1,
{
    lemma_delete_selected_wf(m);
    if !m.selecting {
        if m.column > 0 {
            lemma_remove_columns_wf(m, m.column - 1, m.column);
            lemma_word_left_target_bounds(m.current_line(), m.column);
        } else if m.line > 0 {
            lemma_join_with_previous_wf(m);
        }
        if m.column < m.current_line().len() {
            lemma_remove_columns_wf(m, m.column, m.column + 1);
            lemma_word_right_target_bounds(m.current_line(), m.column);
        } else if m.line + 1 < m.lines.len() {
            lemma_join_with_next_wf(m);
        }
        lemma_remove_columns_wf(
            m,
            crate::words::word_left_target(m.current_line(), m.column),
            m.column,
        );
        lemma_remove_columns_wf(
            m,
            m.column,
            crate::words::word_right_target(m.current_line(), m.column),
        );
    }
}

/// Whether `pieces`, spliced into `lines` at `at`, leave a text that the
/// editor can hold: counted line by line.
pub open spec fn splice_fits(lines: Seq<Seq<char>>, at: (int, int), pieces: Seq<Seq<char>>) -> bool {
    let right = lines[at.0].len() - at.1;
    &&& lines.len() + pieces.len() - 1 <= MAX_LEN
    &&& if pieces.len() == 1 {
        at.1 + pieces[0].len() + right <= MAX_LEN
    } else {
        &&& at.1 + pieces[0].len() <= MAX_LEN
        &&& pieces.last().len() + right <= MAX_LEN
        &&& forall|i: int| 1 <= i < pieces.len() - 1 ==> (#[trigger] pieces[i]).len() <= MAX_LEN
    }
}

/// A splice leaves a text that the editor can hold exactly when it fits line
/// by line. It adds one line for each piece but the first, and the last
/// piece ends up on line `at.0 + pieces.len() - 1`.
pub proof fn lemma_splice_lines(lines: Seq<Seq<char>>, at: (int, int), pieces: Seq<Seq<char>>)
    requires
        lines_ok(lines),
        valid_pos(lines, at),
        pieces.len() >= 1,
    ensures
        lines_ok(splice_lines(lines, at, pieces)) <==> splice_fits(lines, at, pieces),
        splice_lines(lines, at, pieces).len() == lines.len() + pieces.len() - 1,
        splice_lines(lines, at, pieces)[at.0 + pieces.len() - 1] == if pieces.len() == 1 {
            lines[at.0].take(at.1) + pieces[0] + lines[at.0].skip(at.1)
        } else {
            pieces.last() + lines[at.0].skip(at.1)
        },
{
    let r = splice_lines(lines, at, pieces);
    let k = pieces.len() as int;
    let left = lines[at.0].take(at.1);
    let right = lines[at.0].skip(at.1);
    assert(r.len() == lines.len() + k - 1);
    assert forall|i: int| 0 <= i < r.len() implies #[trigger] r[i] == (if i < at.0 {
        lines[i]
    } else if i >= at.0 + k {
        lines[i - k + 1]
    } else if k == 1 {
        left + pieces[0] + right
    } else if i == at.0 {
        left + pieces[0]
    } else if i == at.0 + k - 1 {
        pieces.last() + right
    } else {
        pieces[i - at.0]
    }) by {}
    if splice_fits(lines, at, pieces) {
        assert forall|i: int| 0 <= i < r.len() implies (#[trigger] r[i]).len() <= MAX_LEN by {
            if i < at.0 {
                assert(r[i] == lines[i]);
            } else if i >= at.0 + k {
                assert(r[i] == lines[i - k + 1]);
            } else if k > 1 && at.0 < i < at.0 + k - 1 {
                assert(r[i] == pieces[i - at.0]);
            }
        }
    }
    if lines_ok(r) {
        assert(r[at.0].len() <= MAX_LEN);
        assert(r[at.0 + k - 1].len() <= MAX_LEN);
        if k > 1 {
            assert forall|i: int| 1 <= i < k - 1 implies (#[trigger] pieces[i]).len()
                <= MAX_LEN by {
                assert(r[at.0 + i] == pieces[i]);
            }
        }
    }
}

/// Pasting keeps the invariant; in a viewport that has any height the
/// cursor's line is visible after a paste that changed the state.
pub proof fn lemma_paste_wf(m: TextEditModel, content: Seq<char>)
    requires
        m.wf(),
    ensures
        m.paste(content).wf(),
        m.content_height > 0 && m.paste(content) != m ==> m.paste(content).cursor_visible(),
{
    lemma_delete_selected_wf(m);
    crate::line_buffer::lemma_split_lines_len(content);
    let s = m.without_selection();
    if !s.selecting {
        lemma_splice_lines(s.lines, s.cursor(), split_lines(content));
    }
}

/// The commands of the editor.
pub enum EditCommand {
    InsertChar(char),
    NewLine,
    DeleteLeft,
    DeleteRight,
    DeleteWordLeft,
    DeleteWordRight,
    DeleteSelection,
    /// A move in a direction, by words or not, extending the selection or
    /// not.
    MoveCursor(TextEditMoveDirection, bool, bool),
    SelectAll,
    /// The selection was put on the clipboard and is cleared.
    Copy,
    /// The text that the clipboard held is pasted.
    Paste(Seq<char>),
    /// The viewport has a new height.
    Resize(u16),
}

/// The state after one command.
pub open spec fn apply_command(m: TextEditModel, command: EditCommand) -> TextEditModel {
    match command {
        EditCommand::InsertChar(ch) => m.insert_char(ch),
        EditCommand::NewLine => m.new_line(),
        EditCommand::DeleteLeft => m.delete_char(),
        EditCommand::DeleteRight => m.delete_char_to_right(),
        EditCommand::DeleteWordLeft => m.delete_word(),
        EditCommand::DeleteWordRight => m.delete_word_to_right(),
        EditCommand::DeleteSelection => m.delete_selected(),
        EditCommand::MoveCursor(direction, word, extend) => m.move_cursor(direction, word, extend),
        EditCommand::SelectAll => m.select_all(),
        EditCommand::Copy => m.reset_selection(),
        EditCommand::Paste(content) => m.paste(content),
        EditCommand::Resize(height) => TextEditModel {
            content_height: height as int,
            ..m
        }.scroll_to_cursor(),
    }
}

/// The state after each of `commands` in turn.
pub open spec fn apply_commands(m: TextEditModel, commands: Seq<EditCommand>) -> TextEditModel
    decreases commands.len(),
{
    if commands.len() == 0 {
        m
    } else {
        apply_command(apply_commands(m, commands.drop_last()), commands.last())
    }
}

/// Every command keeps the invariant.
pub proof fn lemma_command_wf(m: TextEditModel, command: EditCommand)
    requires
        m.wf(),
    ensures
        apply_command(m, command).wf(),
{
    match command {
        EditCommand::InsertChar(ch) => {
            lemma_insert_char_wf(m, ch);
        },
        EditCommand::NewLine => {
            lemma_new_line_wf(m);
        },
        EditCommand::DeleteSelection => {
            lemma_delete_selected_wf(m);
        },
        EditCommand::MoveCursor(direction, word, extend) => {
            lemma_move_cursor_wf(m, direction, word, extend);
        },
        EditCommand::SelectAll => {
            lemma_select_all_wf(m);
        },
        EditCommand::Copy => {},
        EditCommand::Paste(content) => {
            lemma_paste_wf(m, content);
        },
        EditCommand::Resize(height) => {
            lemma_scroll_to_cursor(TextEditModel { content_height: height as int, ..m });
        },
        _ => {
            lemma_delete_wf(m);
        },
    }
}

/// After any command that took the cursor to another line or changed the
/// number of lines, the cursor's line is visible, in a viewport that has any
/// height.
pub proof fn lemma_viewport_follows_cursor(m: TextEditModel, command: EditCommand)
    requires
        m.wf(),
        m.content_height > 0,
        apply_command(m, command).line != m.line || apply_command(m, command).lines.len()
            != m.lines.len(),
    ensures
        apply_command(m, command).cursor_visible(),
{
    lemma_delete_selected_wf(m);
    match command {
        EditCommand::InsertChar(_) => {},
        EditCommand::NewLine => {
            lemma_new_line_wf(m);
        },
        EditCommand::DeleteLeft => {
            if !m.selecting && m.column == 0 && m.line > 0 {
                lemma_join_with_previous_wf(m);
            }
        },
        EditCommand::DeleteRight => {
            if !m.selecting && m.column >= m.current_line().len() && m.line + 1 < m.lines.len() {
                lemma_join_with_next_wf(m);
            }
        },
        EditCommand::MoveCursor(direction, word, extend) => {
            lemma_move_cursor_wf(m, direction, word, extend);
        },
        EditCommand::SelectAll => {
            lemma_select_all_wf(m);
        },
        EditCommand::Paste(content) => {
            lemma_paste_wf(m, content);
        },
        _ => {},
    }
}

/// In every state that the editor reaches from its start by any commands,
/// the text has at least one line, the cursor stands on a line of it, and
/// the cursor's column is within that line.
pub proof fn lemma_reachable_states(commands: Seq<EditCommand>)
    ensures
        apply_commands(TextEditModel::initial(), commands).wf(),
        ({
            let m = apply_commands(TextEditModel::initial(), commands);
            &&& m.lines.len() >= 1
            &&& 0 <= m.line < m.lines.len()
            &&& 0 <= m.column <= m.lines[m.line].len()
        }),
    decreases commands.len(),
{
    if commands.len() > 0 {
        lemma_reachable_states(commands.drop_last());
        lemma_command_wf(
            apply_commands(TextEditModel::initial(), commands.drop_last()),
            commands.last(),
        );
    }
}

/// Number of characters of all lines together.
pub open spec fn char_total(lines: Seq<Seq<char>>) -> int
    decreases lines.len(),
{
    if lines.len() == 0 {
        0
    } else {
        char_total(lines.drop_last()) + lines.last().len()
    }
}

/// Replacing a line changes the number of characters by the difference of
/// the two lengths.
pub proof fn lemma_char_total_update(lines: Seq<Seq<char>>, i: int, line: Seq<char>)
    requires
        0 <= i < lines.len(),
    ensures
        char_total(lines.update(i, line)) == char_total(lines) - lines[i].len() + line.len(),
    decreases lines.len(),
{
    if i == lines.len() - 1 {
        assert(lines.update(i, line).drop_last() =~= lines.drop_last());
    } else {
        lemma_char_total_update(lines.drop_last(), i, line);
        assert(lines.update(i, line).drop_last() =~= lines.drop_last().update(i, line));
    }
}

/// Removing a line takes its characters away and no others.
pub proof fn lemma_char_total_remove(lines: Seq<Seq<char>>, i: int)
    requires
        0 <= i < lines.len(),
    ensures
        char_total(lines.remove(i)) == char_total(lines) - lines[i].len(),
    decreases lines.len(),
{
    if i == lines.len() - 1 {
        assert(lines.remove(i) =~= lines.drop_last());
    } else {
        lemma_char_total_remove(lines.drop_last(), i);
        assert(lines.remove(i).drop_last() =~= lines.drop_last().remove(i));
        assert(lines.remove(i).last() == lines.last());
    }
}

/// What inserting a character does without a selection. Where the cursor's
/// line has room, the character stands at the cursor's old column in that
/// line, every other line and the number of lines are as before, and the
/// cursor has moved one column on within the line. A line of `MAX_LEN`
/// characters has no room: nothing changes.
pub proof fn lemma_insert_char_effect(m: TextEditModel, ch: char)
    requires
        m.wf(),
        !m.selecting,
    ensures
        ({
            let r = m.insert_char(ch);
            if m.current_line().len() < MAX_LEN {
                &&& r.lines.len() == m.lines.len()
                &&& r.lines[m.line] == m.current_line().take(m.column) + seq![ch]
                    + m.current_line().skip(m.column)
                &&& forall|i: int|
                    0 <= i < m.lines.len() && i != m.line ==> #[trigger] r.lines[i] == m.lines[i]
                &&& r.line == m.line
                &&& r.column == m.column + 1
                &&& r.column <= r.lines[r.line].len()
                &&& char_total(r.lines) == char_total(m.lines) + 1
                &&& !r.selecting
                &&& r.scroll_offset == m.scroll_offset
            } else {
                r == m
            }
        }),
{
    if m.current_line().len() < MAX_LEN {
        let line = m.current_line().insert(m.column, ch);
        assert(line =~= m.current_line().take(m.column) + seq![ch] + m.current_line().skip(
            m.column,
        ));
        lemma_char_total_update(m.lines, m.line, line);
    }
}

/// What backspace does without a selection. Within a line it removes one
/// character and keeps the lines. At the start of a line that has one before
/// it, it joins the two: one line less, every character kept, the cursor at
/// the joint; but where the joined line would be longer than `MAX_LEN`,
/// nothing changes. At the start of the text nothing changes. The text never
/// becomes empty and never loses more than one character.
pub proof fn lemma_delete_char_effect(m: TextEditModel)
    requires
        m.wf(),
        !m.selecting,
    ensures
        m.delete_char().lines.len() >= 1,
        char_total(m.lines) - 1 <= char_total(m.delete_char().lines) <= char_total(m.lines),
        ({
            let r = m.delete_char();
            if m.column > 0 {
                &&& r.lines.len() == m.lines.len()
                &&& r.lines[m.line] == m.current_line().remove(m.column - 1)
                &&& char_total(r.lines) == char_total(m.lines) - 1
                &&& r.cursor() == (m.line, m.column - 1)
            } else if m.line > 0 && m.lines[m.line - 1].len() + m.current_line().len()
                <= MAX_LEN {
                &&& r.lines.len() == m.lines.len() - 1
                &&& r.lines[m.line - 1] == m.lines[m.line - 1] + m.current_line()
                &&& char_total(r.lines) == char_total(m.lines)
                &&& r.cursor() == (m.line - 1, m.lines[m.line - 1].len() as int)
            } else {
                r == m
            }
        }),
{
    if m.column > 0 {
        let line = m.current_line().take(m.column - 1) + m.current_line().skip(m.column);
        assert(line =~= m.current_line().remove(m.column - 1));
        lemma_char_total_update(m.lines, m.line, line);
    } else if m.line > 0 && m.lines[m.line - 1].len() + m.current_line().len() <= MAX_LEN {
        let joined = m.lines[m.line - 1] + m.current_line();
        let updated = m.lines.update(m.line - 1, joined);
        lemma_char_total_update(m.lines, m.line - 1, joined);
        lemma_char_total_remove(updated, m.line);
    }
}

/// What delete does without a selection. The cursor stays. Within a line
/// the character at the cursor goes and the lines are kept. At the end of a
/// line that has one after it, the two are joined: one line less, every
/// character kept; but where the joined line would be longer than `MAX_LEN`,
/// nothing changes. At the end of the text nothing changes. The text never
/// becomes empty.
pub proof fn lemma_delete_char_to_right_effect(m: TextEditModel)
    requires
        m.wf(),
        !m.selecting,
    ensures
        m.delete_char_to_right().lines.len() >= 1,
        m.delete_char_to_right().cursor() == m.cursor(),
        ({
            let r = m.delete_char_to_right();
            if m.column < m.current_line().len() {
                &&& r.lines.len() == m.lines.len()
                &&& r.lines[m.line] == m.current_line().remove(m.column)
                &&& r.lines[m.line].len() == m.current_line().len() - 1
                &&& char_total(r.lines) == char_total(m.lines) - 1
            } else if m.line + 1 < m.lines.len() && m.current_line().len() + m.lines[m.line
                + 1].len() <= MAX_LEN {
                &&& r.lines.len() == m.lines.len() - 1
                &&& r.lines[m.line] == m.current_line() + m.lines[m.line + 1]
                &&& char_total(r.lines) == char_total(m.lines)
            } else {
                r == m
            }
        }),
{
    if m.column < m.current_line().len() {
        let line = m.current_line().take(m.column) + m.current_line().skip(m.column + 1);
        assert(line =~= m.current_line().remove(m.column));
        lemma_char_total_update(m.lines, m.line, line);
    } else if m.line + 1 < m.lines.len() && m.current_line().len() + m.lines[m.line + 1].len()
        <= MAX_LEN {
        let joined = m.current_line() + m.lines[m.line + 1];
        let updated = m.lines.update(m.line, joined);
        lemma_char_total_update(m.lines, m.line, joined);
        lemma_char_total_remove(updated, m.line + 1);
    }
}

/// Inserting a character and then deleting to the left restores the state,
/// where no selection exists and the line has room for the character.
pub proof fn lemma_insert_then_delete_restores(m: TextEditModel, ch: char)
    requires
        m.wf(),
        !m.selecting,
        m.current_line().len() < MAX_LEN,
    ensures
        m.insert_char(ch).delete_char() == m,
{
    let i = m.insert_char(ch);
    let line = m.current_line().insert(m.column, ch);
    assert(line.take(m.column) + line.skip(m.column + 1) =~= m.current_line());
    assert(i.lines.update(i.line, m.current_line()) =~= m.lines);
}

} // verus!
