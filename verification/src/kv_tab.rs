//! The editor of a table of key-value rows: what a key press asks for, and
//! what each operation does to the rows and to the place of the user among
//! them. The table never becomes empty.

use vstd::prelude::*;
use crate::chars::{char_count, push_char, slice_chars};
use crate::kv_data::{rows_view, KVData, KVDataView};
use crate::kv_tab_state::{KVTabState, KVTabStateView, COL_ADD, COL_KEY, COL_REMOVE, COL_VALUE};

verus! {

/// One change to a table of key-value rows.
#[derive(Clone, Copy, Debug, PartialEq, Eq, Structural)]
pub enum KVTabOperation {
    /// Inserts an empty row before the given index.
    Insert(u16),
    /// Removes the row at the given index.
    Remove(u16),
    /// Moves to the given column.
    MoveColumn(u8),
    /// Moves to the given row.
    MoveRow(u16),
    /// Appends a character to the field under the cursor.
    AppendText(char),
    /// Removes the last character of the field under the cursor.
    PopText(),
}

/// The keys that a table of key-value rows reacts to.
#[derive(Clone, Copy, Debug, PartialEq, Eq, Structural)]
pub enum KVTabKey {
    Enter,
    Up,
    Right,
    Left,
    Down,
    Char(char),
    Backspace,
    Other,
}

/// What a key press asks for.
pub struct KVTabInput {
    /// The operations to carry out, in order.
    pub operations: Vec<KVTabOperation>,
    /// Whether the rows themselves change.
    pub changed: bool,
}

/// The operations that a key press asks for, in order, with the cursor on
/// row `row` and column `col` of a table of `row_count` rows. Enter on the
/// add button inserts a row after the current one; Enter on the remove
/// button removes the current row, after moving up where there is a row
/// above. With the control key the arrows move by one row or column, within
/// the table. A character is appended, backspace removes one.
pub open spec fn kv_tab_operations(
    key: KVTabKey,
    ctrl_down: bool,
    row: u16,
    col: u8,
    row_count: u16,
) -> Seq<KVTabOperation> {
    match key {
        KVTabKey::Enter => {
            if col == COL_ADD && row < u16::MAX {
                seq![KVTabOperation::Insert((row + 1) as u16)]
            } else if col == COL_REMOVE && row > 0 {
                seq![KVTabOperation::MoveRow((row - 1) as u16), KVTabOperation::Remove(row)]
            } else if col == COL_REMOVE {
                seq![KVTabOperation::Remove(row)]
            } else {
                Seq::empty()
            }
        },
        KVTabKey::Up => {
            if ctrl_down && row > 0 {
                seq![KVTabOperation::MoveRow((row - 1) as u16)]
            } else {
                Seq::empty()
            }
        },
        KVTabKey::Down => {
            if ctrl_down && row + 1 < row_count {
                seq![KVTabOperation::MoveRow((row + 1) as u16)]
            } else {
                Seq::empty()
            }
        },
        KVTabKey::Right => {
            if ctrl_down && col < COL_REMOVE {
                seq![KVTabOperation::MoveColumn((col + 1) as u8)]
            } else {
                Seq::empty()
            }
        },
        KVTabKey::Left => {
            if ctrl_down && col > 0 {
                seq![KVTabOperation::MoveColumn((col - 1) as u8)]
            } else {
                Seq::empty()
            }
        },
        KVTabKey::Char(c) => seq![KVTabOperation::AppendText(c)],
        KVTabKey::Backspace => seq![KVTabOperation::PopText()],
        KVTabKey::Other => Seq::empty(),
    }
}

/// Whether a key press changes the rows themselves: a row is added or
/// removed, or a field is edited.
pub open spec fn kv_tab_changes(key: KVTabKey, row: u16, col: u8) -> bool {
    match key {
        KVTabKey::Enter => (col == COL_ADD && row < u16::MAX) || col == COL_REMOVE,
        KVTabKey::Char(_) => true,
        KVTabKey::Backspace => true,
        _ => false,
    }
}

/// `rows` with `row` inserted before index `pos`; unchanged where `pos` is
/// past the end.
pub open spec fn rows_insert(rows: Seq<KVDataView>, pos: int, row: KVDataView) -> Seq<KVDataView> {
    if 0 <= pos <= rows.len() {
        rows.insert(pos, row)
    } else {
        rows
    }
}

/// `rows` without the row at index `pos`; where that was the only row, one
/// empty row takes its place. Unchanged where there is no row at `pos`.
pub open spec fn rows_remove(rows: Seq<KVDataView>, pos: int) -> Seq<KVDataView> {
    if 0 <= pos < rows.len() {
        if rows.len() == 1 {
            seq![KVDataView::empty()]
        } else {
            rows.remove(pos)
        }
    } else {
        rows
    }
}

/// The row `row` with `ch` appended to the field in column `col`.
pub open spec fn row_append(row: KVDataView, col: int, ch: char) -> KVDataView {
    if col == COL_KEY {
        KVDataView { key: row.key.push(ch), ..row }
    } else if col == COL_VALUE {
        KVDataView { value: row.value.push(ch), ..row }
    } else {
        row
    }
}

/// `s` without its last character.
pub open spec fn without_last(s: Seq<char>) -> Seq<char> {
    if s.len() > 0 {
        s.drop_last()
    } else {
        s
    }
}

/// The row `row` with the last character of the field in column `col`
/// removed.
pub open spec fn row_pop(row: KVDataView, col: int) -> KVDataView {
    if col == COL_KEY {
        KVDataView { key: without_last(row.key), ..row }
    } else if col == COL_VALUE {
        KVDataView { value: without_last(row.value), ..row }
    } else {
        row
    }
}

/// The rows after `op`, with the cursor as `state` says. A table of
/// `limit` rows takes no more, and no row is inserted at index `limit`.
pub open spec fn rows_after(
    rows: Seq<KVDataView>,
    state: KVTabStateView,
    op: KVTabOperation,
    limit: int,
) -> Seq<KVDataView> {
    match op {
        KVTabOperation::Insert(pos) => if rows.len() == limit || pos == limit {
            rows
        } else {
            rows_insert(rows, pos as int, KVDataView::empty())
        },
        KVTabOperation::Remove(pos) => rows_remove(rows, pos as int),
        KVTabOperation::AppendText(ch) => if 0 <= state.active_row < rows.len() {
            rows.update(
                state.active_row,
                row_append(rows[state.active_row], state.active_col, ch),
            )
        } else {
            rows
        },
        KVTabOperation::PopText() => if 0 <= state.active_row < rows.len() {
            rows.update(state.active_row, row_pop(rows[state.active_row], state.active_col))
        } else {
            rows
        },
        _ => rows,
    }
}

/// The place of the cursor after `op`.
pub open spec fn state_after(state: KVTabStateView, op: KVTabOperation) -> KVTabStateView {
    match op {
        KVTabOperation::MoveColumn(col) => KVTabStateView { active_col: col as int, ..state },
        KVTabOperation::MoveRow(row) => KVTabStateView { active_row: row as int, ..state },
        _ => state,
    }
}

/// The rows after each of `ops` in turn.
pub open spec fn rows_after_all(
    rows: Seq<KVDataView>,
    state: KVTabStateView,
    ops: Seq<KVTabOperation>,
    limit: int,
) -> Seq<KVDataView>
    decreases ops.len(),
{
    if ops.len() == 0 {
        rows
    } else {
        rows_after(
            rows_after_all(rows, state, ops.drop_last(), limit),
            state_after_all(state, ops.drop_last()),
            ops.last(),
            limit,
        )
    }
}

/// The number of rows as a key press sees it: counted up to 65535.
pub open spec fn row_count_of(rows: Seq<KVDataView>) -> u16 {
    if rows.len() > u16::MAX {
        u16::MAX
    } else {
        rows.len() as u16
    }
}

/// The operations that `key` asks for with the cursor where `state` says.
pub open spec fn key_operations(
    rows: Seq<KVDataView>,
    state: KVTabStateView,
    key: KVTabKey,
    ctrl_down: bool,
) -> Seq<KVTabOperation> {
    kv_tab_operations(
        key,
        ctrl_down,
        state.active_row as u16,
        state.active_col as u8,
        row_count_of(rows),
    )
}

/// The rows after the key `key` was handled.
pub open spec fn rows_after_key(
    rows: Seq<KVDataView>,
    state: KVTabStateView,
    key: KVTabKey,
    ctrl_down: bool,
    limit: int,
) -> Seq<KVDataView> {
    rows_after_all(rows, state, key_operations(rows, state, key, ctrl_down), limit)
}

/// The place of the cursor after the key `key` was handled.
pub open spec fn state_after_key(
    rows: Seq<KVDataView>,
    state: KVTabStateView,
    key: KVTabKey,
    ctrl_down: bool,
) -> KVTabStateView {
    state_after_all(state, key_operations(rows, state, key, ctrl_down))
}

/// The place of the cursor after each of `ops` in turn.
pub open spec fn state_after_all(state: KVTabStateView, ops: Seq<KVTabOperation>) -> KVTabStateView
    decreases ops.len(),
{
    if ops.len() == 0 {
        state
    } else {
        state_after(state_after_all(state, ops.drop_last()), ops.last())
    }
}

/// The cursor stands on a row of the table and on one of its four columns.
pub open spec fn cursor_on_table(rows: Seq<KVDataView>, state: KVTabStateView) -> bool {
    &&& rows.len() >= 1
    &&& 0 <= state.active_row < rows.len()
    &&& state.active_row <= u16::MAX
    &&& 0 <= state.active_col <= COL_REMOVE
}

/// No operation empties the table: removing the only row leaves one empty
/// row.
pub proof fn lemma_rows_never_empty(
    rows: Seq<KVDataView>,
    state: KVTabStateView,
    op: KVTabOperation,
    limit: int,
)
    requires
        rows.len() >= 1,
    ensures
        rows_after(rows, state, op, limit).len() >= 1,
        rows.len() == 1 ==> rows_after(rows, state, KVTabOperation::Remove(0), limit) == seq![
            KVDataView::empty(),
        ],
{
}

/// Whatever key is pressed, the table keeps at least one row and the cursor
/// stays on a row and a column of it.
pub proof fn lemma_key_keeps_cursor_on_table(
    rows: Seq<KVDataView>,
    state: KVTabStateView,
    key: KVTabKey,
    ctrl_down: bool,
    limit: int,
)
    requires
        cursor_on_table(rows, state),
    ensures
        cursor_on_table(
            rows_after_key(rows, state, key, ctrl_down, limit),
            state_after_key(rows, state, key, ctrl_down),
        ),
{
    let ops = key_operations(rows, state, key, ctrl_down);
    reveal_with_fuel(rows_after_all, 3);
    reveal_with_fuel(state_after_all, 3);
    if ops.len() == 1 {
        assert(ops.drop_last() =~= Seq::empty());
        assert(rows_after_all(rows, state, ops, limit) == rows_after(rows, state, ops[0], limit));
        assert(state_after_all(state, ops) == state_after(state, ops[0]));
    } else if ops.len() == 2 {
        let first = ops.drop_last();
        assert(first =~= seq![ops[0]]);
        assert(first.drop_last() =~= Seq::empty());
        assert(rows_after_all(rows, state, first, limit) == rows_after(
            rows,
            state,
            ops[0],
            limit,
        ));
        assert(state_after_all(state, first) == state_after(state, ops[0]));
    }
}

/// Says what the key `key` asks of a table of `row_count` rows, with the
/// cursor on row `row` and column `col`.
pub fn process_kv_tab_input(key: KVTabKey, ctrl_down: bool, row: u16, col: u8, row_count: u16) -> (input:
    KVTabInput)
    ensures
        input.operations@ == kv_tab_operations(key, ctrl_down, row, col, row_count),
        input.changed == kv_tab_changes(key, row, col),
{
    let mut operations: Vec<KVTabOperation> = Vec::new();
    let mut changed = false;
    match key {
        KVTabKey::Enter => {
            if col == COL_ADD && row < u16::MAX {
                operations.push(KVTabOperation::Insert(row + 1));
                changed = true;
            } else if col == COL_REMOVE {
                if row > 0 {
                    operations.push(KVTabOperation::MoveRow(row - 1));
                }
                operations.push(KVTabOperation::Remove(row));
                changed = true;
            }
        },
        KVTabKey::Up => {
            if ctrl_down && row > 0 {
                operations.push(KVTabOperation::MoveRow(row - 1));
            }
        },
        KVTabKey::Down => {
            if ctrl_down && row < u16::MAX && row + 1 < row_count {
                operations.push(KVTabOperation::MoveRow(row + 1));
            }
        },
        KVTabKey::Right => {
            if ctrl_down && col < COL_REMOVE {
                operations.push(KVTabOperation::MoveColumn(col + 1));
            }
        },
        KVTabKey::Left => {
            if ctrl_down && col > 0 {
                operations.push(KVTabOperation::MoveColumn(col - 1));
            }
        },
        KVTabKey::Char(c) => {
            operations.push(KVTabOperation::AppendText(c));
            changed = true;
        },
        KVTabKey::Backspace => {
            operations.push(KVTabOperation::PopText());
            changed = true;
        },
        KVTabKey::Other => {},
    }
    proof {
        assert(operations@ =~= kv_tab_operations(key, ctrl_down, row, col, row_count));
    }
    KVTabInput { operations, changed }
}

/// Inserts `row` before index `pos`. Nothing changes where `pos` is past the
/// end.
pub fn insert_row(rows: &mut Vec<KVData>, pos: u16, row: KVData)
    ensures
        rows_view(final(rows)@) == rows_insert(rows_view(old(rows)@), pos as int, row@),
{
    if pos as usize <= rows.len() {
        rows.insert(pos as usize, row);
        proof {
            assert(rows_view(rows@) =~= rows_view(old(rows)@).insert(pos as int, row@));
        }
    }
}

/// Removes the row at index `pos`; where it was the only row, one empty row
/// takes its place. Nothing changes where there is no row at `pos`.
pub fn remove_row(rows: &mut Vec<KVData>, pos: u16)
    ensures
        rows_view(final(rows)@) == rows_remove(rows_view(old(rows)@), pos as int),
{
    if (pos as usize) < rows.len() {
        rows.remove(pos as usize);
        if rows.len() == 0 {
            rows.push(KVData::default());
            proof {
                assert(rows_view(rows@) =~= seq![KVDataView::empty()]);
            }
        } else {
            proof {
                assert(rows_view(rows@) =~= rows_view(old(rows)@).remove(pos as int));
            }
        }
    }
}

/// `s` without its last character.
fn pop_char(s: &String) -> (r: String)
    ensures
        r@ == without_last(s@),
{
    let n = char_count(s);
    if n > 0 {
        let r = slice_chars(s, 0, n - 1);
        proof {
            assert(r@ =~= s@.drop_last());
        }
        r
    } else {
        s.clone()
    }
}

/// Carries out `op` on the rows and on the place of the cursor. A table of
/// `limit` rows takes no more.
pub fn apply_kv_tab_operation(
    rows: &mut Vec<KVData>,
    state: &mut KVTabState,
    op: KVTabOperation,
    limit: usize,
)
    ensures
        rows_view(final(rows)@) == rows_after(
            rows_view(old(rows)@),
            old(state)@,
            op,
            limit as int,
        ),
        final(state)@ == state_after(old(state)@, op),
{
    let row = state.active_row() as usize;
    let col = state.active_col();
    match op {
        KVTabOperation::Insert(pos) => {
            if rows.len() != limit && pos as usize != limit {
                insert_row(rows, pos, KVData::default());
            }
        },
        KVTabOperation::Remove(pos) => {
            remove_row(rows, pos);
        },
        KVTabOperation::MoveColumn(c) => {
            state.set_active_col(c);
        },
        KVTabOperation::MoveRow(r) => {
            state.set_active_row(r);
        },
        KVTabOperation::AppendText(ch) => {
            if row < rows.len() {
                let mut updated = rows[row].clone();
                if col == COL_KEY {
                    let mut key = updated.key();
                    push_char(&mut key, ch);
                    updated.set_key(key);
                } else if col == COL_VALUE {
                    let mut value = updated.value();
                    push_char(&mut value, ch);
                    updated.set_value(value);
                }
                rows[row] = updated;
                proof {
                    assert(rows_view(rows@) =~= rows_view(old(rows)@).update(
                        row as int,
                        row_append(rows_view(old(rows)@)[row as int], col as int, ch),
                    ));
                }
            }
        },
        KVTabOperation::PopText() => {
            if row < rows.len() {
                let mut updated = rows[row].clone();
                if col == COL_KEY {
                    let key = pop_char(&updated.key());
                    updated.set_key(key);
                } else if col == COL_VALUE {
                    let value = pop_char(&updated.value());
                    updated.set_value(value);
                }
                rows[row] = updated;
                proof {
                    assert(rows_view(rows@) =~= rows_view(old(rows)@).update(
                        row as int,
                        row_pop(rows_view(old(rows)@)[row as int], col as int),
                    ));
                }
            }
        },
    }
}

/// Handles one key press on a table of key-value rows: carries out, in
/// order, the operations that the key asks for. Says whether the rows
/// themselves changed. A table of `limit` rows takes no more.
pub fn handle_kv_tab_key(
    rows: &mut Vec<KVData>,
    state: &mut KVTabState,
    key: KVTabKey,
    ctrl_down: bool,
    limit: usize,
) -> (changed: bool)
    ensures
        rows_view(final(rows)@) == rows_after_key(
            rows_view(old(rows)@),
            old(state)@,
            key,
            ctrl_down,
            limit as int,
        ),
        final(state)@ == state_after_key(rows_view(old(rows)@), old(state)@, key, ctrl_down),
        changed == kv_tab_changes(
            key,
            old(state)@.active_row as u16,
            old(state)@.active_col as u8,
        ),
        cursor_on_table(rows_view(old(rows)@), old(state)@) ==> cursor_on_table(
            rows_view(final(rows)@),
            final(state)@,
        ),
{
    let row_count: u16 = if rows.len() > 65535 {
        65535
    } else {
        rows.len() as u16
    };
    let input = process_kv_tab_input(
        key,
        ctrl_down,
        state.active_row(),
        state.active_col(),
        row_count,
    );
    proof {
        if cursor_on_table(rows_view(rows@), state@) {
            lemma_key_keeps_cursor_on_table(rows_view(rows@), state@, key, ctrl_down, limit as int);
        }
    }
    let ghost ops = input.operations@;
    let mut i: usize = 0;
    proof {
        assert(ops.take(0) =~= Seq::empty());
    }
    while i < input.operations.len()
        invariant
            i <= ops.len(),
            ops == input.operations@,
            rows_view(rows@) == rows_after_all(
                rows_view(old(rows)@),
                old(state)@,
                ops.take(i as int),
                limit as int,
            ),
            state@ == state_after_all(old(state)@, ops.take(i as int)),
        decreases ops.len() - i,
    {
        proof {
            assert(ops.take(i + 1).drop_last() =~= ops.take(i as int));
        }
        apply_kv_tab_operation(rows, state, input.operations[i], limit);
        i = i + 1;
    }
    proof {
        assert(ops.take(i as int) =~= ops);
    }
    input.changed
}

} // verus!
