use dakia::text_edit::{TextEditMoveDirection, TextEditState};

fn lines(v: &[&str]) -> Vec<String> {
    v.iter().map(|s| s.to_string()).collect()
}

fn editor(text: &[&str], line: u16, column: u16) -> TextEditState {
    let mut e = TextEditState::default();
    e.set_text(lines(text));
    e.set_line_number(line);
    e.set_cursor_pos(column);
    e
}

fn select(e: &mut TextEditState, start: (u16, u16), end: (u16, u16)) {
    e.set_sel_start_pos(start);
    e.set_sel_end_pos(end);
    e.set_selecting(true);
}

fn cursor(e: &TextEditState) -> (u16, u16) {
    (e.line_number(), e.cursor_pos())
}

#[test]
fn new_editor_has_one_empty_line() {
    let e = TextEditState::default();
    assert_eq!(e.text_vec(), lines(&[""]));
    assert_eq!(e.text(), "");
    assert_eq!(cursor(&e), (0, 0));
    assert!(!e.selecting());
    assert_eq!(e.sel_start_pos(), (0, 0));
    assert_eq!(e.sel_end_pos(), (0, 0));
    assert_eq!(e.scroll_offset(), 0);
    assert_eq!(e.content_height(), 0);
}

#[test]
fn right_with_extend_five_times_selects_hello() {
    let mut e = editor(&["hello world"], 0, 0);
    for _ in 0..5 {
        e.move_cursor(TextEditMoveDirection::Right, false, true);
    }
    assert!(e.selecting());
    assert_eq!(e.sel_start_pos(), (0, 0));
    assert_eq!(e.sel_end_pos(), (0, 5));
    assert_eq!(e.cursor_pos(), 5);
    assert_eq!(e.selected_text(), "hello");
}

#[test]
fn backspace_at_line_start_joins_lines() {
    let mut e = editor(&["abc", "def"], 1, 0);
    e.delete_char();
    assert_eq!(e.text_vec(), lines(&["abcdef"]));
    assert_eq!(cursor(&e), (0, 3));
}

#[test]
fn new_line_splits_at_cursor() {
    let mut e = editor(&["abcdef"], 0, 3);
    e.new_line();
    assert_eq!(e.text_vec(), lines(&["abc", "def"]));
    assert_eq!(cursor(&e), (1, 0));
}

#[test]
fn new_line_at_end_adds_empty_line() {
    let mut e = editor(&["abc"], 0, 3);
    e.new_line();
    assert_eq!(e.text_vec(), lines(&["abc", ""]));
    assert_eq!(cursor(&e), (1, 0));
}

#[test]
fn new_line_replaces_selection() {
    let mut e = editor(&["abcdef"], 0, 4);
    select(&mut e, (0, 2), (0, 4));
    e.new_line();
    assert_eq!(e.text_vec(), lines(&["ab", "ef"]));
    assert_eq!(cursor(&e), (1, 0));
    assert!(!e.selecting());
}

#[test]
fn multi_line_paste_splices_into_line() {
    let mut e = editor(&["foo"], 0, 3);
    e.paste("bar\nbaz");
    assert_eq!(e.text_vec(), lines(&["foobar", "baz"]));
    assert_eq!(cursor(&e), (1, 3));
}

#[test]
fn paste_in_the_middle_keeps_both_halves() {
    let mut e = editor(&["head", "ab", "tail"], 1, 1);
    e.paste("1\n2\n3");
    assert_eq!(e.text_vec(), lines(&["head", "a1", "2", "3b", "tail"]));
    assert_eq!(cursor(&e), (3, 1));
}

#[test]
fn paste_single_line_moves_cursor_past_it() {
    let mut e = editor(&["ab"], 0, 1);
    e.paste("XYZ");
    assert_eq!(e.text_vec(), lines(&["aXYZb"]));
    assert_eq!(cursor(&e), (0, 4));
}

#[test]
fn paste_drops_carriage_returns() {
    let mut e = TextEditState::default();
    e.paste("a\r\nb\r\n");
    assert_eq!(e.text_vec(), lines(&["a", "b", ""]));
    assert_eq!(cursor(&e), (2, 0));
}

#[test]
fn paste_of_nothing_changes_nothing() {
    let mut e = editor(&["abc"], 0, 2);
    select(&mut e, (0, 0), (0, 2));
    e.paste("");
    assert_eq!(e.text_vec(), lines(&["abc"]));
    assert_eq!(cursor(&e), (0, 2));
    assert!(e.selecting());
}

#[test]
fn paste_replaces_selection() {
    let mut e = editor(&["hello world"], 0, 5);
    select(&mut e, (0, 0), (0, 5));
    e.paste("bye");
    assert_eq!(e.text_vec(), lines(&["bye world"]));
    assert_eq!(cursor(&e), (0, 3));
    assert!(!e.selecting());
}

#[test]
fn paste_scrolls_to_cursor() {
    let mut e = TextEditState::default();
    e.set_content_height(2);
    e.paste("1\n2\n3\n4");
    assert_eq!(cursor(&e), (3, 1));
    assert_eq!(e.scroll_offset(), 2);
}

#[test]
fn scroll_follows_cursor_to_last_line() {
    let mut e = editor(&["0", "1", "2", "3", "4", "5", "6", "7", "8", "9"], 0, 0);
    e.set_content_height(3);
    for _ in 0..9 {
        e.move_cursor(TextEditMoveDirection::Down, false, false);
    }
    assert_eq!(e.line_number(), 9);
    assert_eq!(e.scroll_offset(), 7);
}

#[test]
fn scroll_follows_cursor_back_up() {
    let mut e = editor(&["0", "1", "2", "3", "4", "5", "6", "7", "8", "9"], 0, 0);
    e.set_content_height(3);
    for _ in 0..9 {
        e.move_cursor(TextEditMoveDirection::Down, false, false);
    }
    for _ in 0..2 {
        e.move_cursor(TextEditMoveDirection::Up, false, false);
    }
    assert_eq!(e.line_number(), 7);
    assert_eq!(e.scroll_offset(), 7);
    e.move_cursor(TextEditMoveDirection::Up, false, false);
    assert_eq!(e.line_number(), 6);
    assert_eq!(e.scroll_offset(), 6);
}

#[test]
fn resize_runs_the_scroll_clamp() {
    let mut e = editor(&["0", "1", "2", "3", "4", "5"], 5, 0);
    assert_eq!(e.scroll_offset(), 0);
    e.set_content_height(2);
    assert_eq!(e.content_height(), 2);
    assert_eq!(e.scroll_offset(), 4);
    assert_eq!(e.line_number(), 5);
}

#[test]
fn backspace_join_lifts_viewport_at_bottom() {
    let mut e = editor(&["0", "1", "2", "3", "4", "5", "6", "7"], 5, 0);
    e.set_content_height(3);
    e.set_scroll_offset(5);
    e.delete_char();
    assert_eq!(e.text_vec(), lines(&["0", "1", "2", "3", "45", "6", "7"]));
    assert_eq!(cursor(&e), (4, 1));
    assert_eq!(e.scroll_offset(), 4);
}

#[test]
fn type_two_lines_then_select_to_end_of_first() {
    let mut e = TextEditState::default();
    e.insert_char('h');
    e.insert_char('i');
    e.new_line();
    e.insert_char('x');
    assert_eq!(e.text_vec(), lines(&["hi", "x"]));
    e.move_cursor(TextEditMoveDirection::Up, false, false);
    assert_eq!(cursor(&e), (0, 1));
    e.move_cursor(TextEditMoveDirection::End, false, true);
    assert!(e.selecting());
    assert_eq!(e.sel_start_pos(), (0, 1));
    assert_eq!(e.sel_end_pos(), (0, 2));
    assert_eq!(e.selected_text(), "i");
}

#[test]
fn home_twice_is_home_once() {
    let mut once = editor(&["hello world"], 0, 7);
    once.move_cursor(TextEditMoveDirection::Home, false, true);
    let mut twice = editor(&["hello world"], 0, 7);
    twice.move_cursor(TextEditMoveDirection::Home, false, true);
    twice.move_cursor(TextEditMoveDirection::Home, false, true);
    assert_eq!(once.cursor_pos(), 0);
    assert_eq!(twice.cursor_pos(), once.cursor_pos());
    assert_eq!(twice.sel_start_pos(), once.sel_start_pos());
    assert_eq!(twice.sel_end_pos(), once.sel_end_pos());
    assert_eq!(once.sel_start_pos(), (0, 0));
    assert_eq!(once.sel_end_pos(), (0, 7));
    assert_eq!(twice.selecting(), once.selecting());
    assert_eq!(twice.text_vec(), once.text_vec());
}

#[test]
fn insert_then_backspace_restores() {
    let mut e = editor(&["abc", "def"], 1, 2);
    e.insert_char('x');
    assert_eq!(e.text_vec(), lines(&["abc", "dexf"]));
    assert_eq!(e.cursor_pos(), 3);
    e.delete_char();
    assert_eq!(e.text_vec(), lines(&["abc", "def"]));
    assert_eq!(cursor(&e), (1, 2));
}

#[test]
fn insert_replaces_selection() {
    let mut e = editor(&["hello world"], 0, 5);
    select(&mut e, (0, 0), (0, 5));
    e.insert_char('X');
    assert_eq!(e.text_vec(), lines(&["X world"]));
    assert_eq!(cursor(&e), (0, 1));
    assert!(!e.selecting());
}

#[test]
fn insert_counts_characters_not_bytes() {
    let mut e = editor(&["héllo"], 0, 2);
    e.insert_char('ß');
    assert_eq!(e.text_vec(), lines(&["héßllo"]));
    assert_eq!(e.cursor_pos(), 3);
    e.move_cursor(TextEditMoveDirection::End, false, false);
    assert_eq!(e.cursor_pos(), 6);
}

#[test]
fn insert_into_full_line_changes_nothing() {
    let full: String = "a".repeat(65535);
    let mut e = TextEditState::default();
    e.set_text(vec![full.clone()]);
    e.insert_char('b');
    assert_eq!(e.text_vec(), vec![full]);
    assert_eq!(cursor(&e), (0, 0));
}

#[test]
fn backspace_join_of_too_long_lines_changes_nothing() {
    let long: String = "a".repeat(40000);
    let mut e = TextEditState::default();
    e.set_text(vec![long.clone(), long.clone()]);
    e.set_line_number(1);
    e.delete_char();
    assert_eq!(e.text_vec(), vec![long.clone(), long.clone()]);
    assert_eq!(cursor(&e), (1, 0));
    e.set_line_number(0);
    e.set_cursor_pos(40000);
    e.delete_char_to_right();
    assert_eq!(e.text_vec(), vec![long.clone(), long]);
    assert_eq!(cursor(&e), (0, 40000));
}

#[test]
fn backspace_removes_character_left_of_cursor() {
    let mut e = editor(&["abc"], 0, 2);
    e.delete_char();
    assert_eq!(e.text_vec(), lines(&["ac"]));
    assert_eq!(cursor(&e), (0, 1));
}

#[test]
fn backspace_at_start_of_text_changes_nothing() {
    let mut e = editor(&["abc"], 0, 0);
    e.delete_char();
    assert_eq!(e.text_vec(), lines(&["abc"]));
    assert_eq!(cursor(&e), (0, 0));
}

#[test]
fn backspace_removes_selection_first() {
    let mut e = editor(&["abcdef"], 0, 4);
    select(&mut e, (0, 1), (0, 4));
    e.delete_char();
    assert_eq!(e.text_vec(), lines(&["aef"]));
    assert_eq!(cursor(&e), (0, 1));
    assert!(!e.selecting());
}

#[test]
fn delete_removes_character_at_cursor() {
    let mut e = editor(&["abc"], 0, 1);
    e.delete_char_to_right();
    assert_eq!(e.text_vec(), lines(&["ac"]));
    assert_eq!(cursor(&e), (0, 1));
}

#[test]
fn delete_at_line_end_joins_next_line() {
    let mut e = editor(&["abc", "def", "ghi"], 0, 3);
    e.delete_char_to_right();
    assert_eq!(e.text_vec(), lines(&["abcdef", "ghi"]));
    assert_eq!(cursor(&e), (0, 3));
}

#[test]
fn delete_at_end_of_text_changes_nothing() {
    let mut e = editor(&["abc"], 0, 3);
    e.delete_char_to_right();
    assert_eq!(e.text_vec(), lines(&["abc"]));
    assert_eq!(cursor(&e), (0, 3));
}

#[test]
fn delete_selected_within_one_line() {
    let mut e = editor(&["hello world"], 0, 5);
    select(&mut e, (0, 2), (0, 5));
    e.delete_selected();
    assert_eq!(e.text_vec(), lines(&["he world"]));
    assert_eq!(cursor(&e), (0, 2));
    assert!(!e.selecting());
    assert_eq!(e.sel_start_pos(), (0, 0));
    assert_eq!(e.sel_end_pos(), (0, 0));
}

#[test]
fn delete_selected_across_adjacent_lines() {
    let mut e = editor(&["hello", "world"], 1, 2);
    select(&mut e, (0, 3), (1, 2));
    e.delete_selected();
    assert_eq!(e.text_vec(), lines(&["helrld"]));
    assert_eq!(cursor(&e), (0, 3));
}

#[test]
fn delete_selected_across_many_lines() {
    let mut e = editor(&["zero", "one", "two", "three", "four"], 3, 2);
    select(&mut e, (1, 1), (3, 2));
    e.delete_selected();
    assert_eq!(e.text_vec(), lines(&["zero", "oree", "four"]));
    assert_eq!(cursor(&e), (1, 1));
    assert!(!e.selecting());
}

#[test]
fn delete_selected_scrolls_to_cursor() {
    let mut e = editor(&["0", "1", "2", "3", "4", "5"], 5, 1);
    e.set_content_height(2);
    assert_eq!(e.scroll_offset(), 4);
    select(&mut e, (1, 0), (5, 1));
    e.delete_selected();
    assert_eq!(e.text_vec(), lines(&["0", ""]));
    assert_eq!(cursor(&e), (1, 0));
    assert_eq!(e.scroll_offset(), 1);
}

#[test]
fn delete_selected_without_selection_changes_nothing() {
    let mut e = editor(&["abc"], 0, 2);
    e.delete_selected();
    assert_eq!(e.text_vec(), lines(&["abc"]));
    assert_eq!(cursor(&e), (0, 2));
}

#[test]
fn delete_everything_leaves_one_empty_line() {
    let mut e = editor(&["abc", "def", "ghi"], 1, 1);
    e.select_all();
    e.delete_selected();
    assert_eq!(e.text_vec(), lines(&[""]));
    assert_eq!(cursor(&e), (0, 0));
}

#[test]
fn select_all_spans_the_text() {
    let mut e = editor(&["abc", "de"], 0, 1);
    e.select_all();
    assert!(e.selecting());
    assert_eq!(e.sel_start_pos(), (0, 0));
    assert_eq!(e.sel_end_pos(), (1, 2));
    assert_eq!(cursor(&e), (1, 2));
    assert_eq!(e.selected_text(), "abc\nde");
}

#[test]
fn selected_text_across_many_lines() {
    let mut e = editor(&["zero", "one", "two", "three"], 3, 2);
    select(&mut e, (0, 2), (3, 2));
    assert_eq!(e.selected_text(), "ro\none\ntwo\nth");
}

#[test]
fn selected_text_without_selection_is_empty() {
    let e = editor(&["abc"], 0, 1);
    assert_eq!(e.selected_text(), "");
}

#[test]
fn text_joins_lines_with_line_feeds() {
    let e = editor(&["a", "", "b"], 0, 0);
    assert_eq!(e.text(), "a\n\nb");
}

#[test]
fn set_text_of_nothing_gives_one_empty_line() {
    let mut e = TextEditState::default();
    e.set_text(vec![]);
    assert_eq!(e.text_vec(), lines(&[""]));
}

#[test]
fn left_with_extend_selects_backwards() {
    let mut e = editor(&["hello"], 0, 4);
    e.move_cursor(TextEditMoveDirection::Left, false, true);
    e.move_cursor(TextEditMoveDirection::Left, false, true);
    assert_eq!(e.sel_start_pos(), (0, 2));
    assert_eq!(e.sel_end_pos(), (0, 4));
    assert_eq!(e.cursor_pos(), 2);
    assert_eq!(e.selected_text(), "ll");
}

#[test]
fn crossing_the_anchor_flips_the_selection() {
    let mut e = editor(&["hello"], 0, 2);
    e.move_cursor(TextEditMoveDirection::Right, false, true);
    assert_eq!((e.sel_start_pos(), e.sel_end_pos()), ((0, 2), (0, 3)));
    e.move_cursor(TextEditMoveDirection::Left, false, true);
    assert_eq!((e.sel_start_pos(), e.sel_end_pos()), ((0, 2), (0, 2)));
    assert!(e.selecting());
    assert_eq!(e.selected_text(), "");
    e.move_cursor(TextEditMoveDirection::Left, false, true);
    assert_eq!((e.sel_start_pos(), e.sel_end_pos()), ((0, 1), (0, 2)));
    assert_eq!(e.selected_text(), "e");
    e.move_cursor(TextEditMoveDirection::End, false, true);
    assert_eq!((e.sel_start_pos(), e.sel_end_pos()), ((0, 2), (0, 5)));
    assert_eq!(e.selected_text(), "llo");
}

#[test]
fn down_with_extend_selects_to_the_line_below() {
    let mut e = editor(&["hello", "hi", "world"], 0, 4);
    e.move_cursor(TextEditMoveDirection::Down, false, true);
    assert_eq!(cursor(&e), (1, 2));
    assert_eq!((e.sel_start_pos(), e.sel_end_pos()), ((0, 4), (1, 2)));
    assert_eq!(e.selected_text(), "o\nhi");
    e.move_cursor(TextEditMoveDirection::Down, false, true);
    assert_eq!(cursor(&e), (2, 2));
    assert_eq!(e.selected_text(), "o\nhi\nwo");
    e.move_cursor(TextEditMoveDirection::Up, false, true);
    e.move_cursor(TextEditMoveDirection::Up, false, true);
    assert_eq!(cursor(&e), (0, 2));
    assert_eq!((e.sel_start_pos(), e.sel_end_pos()), ((0, 2), (0, 4)));
    assert_eq!(e.selected_text(), "ll");
}

#[test]
fn move_without_extend_clears_selection() {
    let mut e = editor(&["hello"], 0, 2);
    e.move_cursor(TextEditMoveDirection::Right, false, true);
    e.move_cursor(TextEditMoveDirection::Right, false, false);
    assert!(!e.selecting());
    assert_eq!(e.sel_start_pos(), (0, 0));
    assert_eq!(e.sel_end_pos(), (0, 0));
    assert_eq!(e.cursor_pos(), 4);
}

#[test]
fn moves_that_cannot_advance_still_clear_the_selection() {
    let mut e = editor(&["ab"], 0, 2);
    select(&mut e, (0, 0), (0, 2));
    e.move_cursor(TextEditMoveDirection::Right, false, false);
    assert!(!e.selecting());
    assert_eq!((e.sel_start_pos(), e.sel_end_pos()), ((0, 0), (0, 0)));
    assert_eq!(cursor(&e), (0, 2));
    assert_eq!(e.text_vec(), lines(&["ab"]));

    select(&mut e, (0, 0), (0, 2));
    e.move_cursor(TextEditMoveDirection::Down, false, false);
    assert!(!e.selecting());
    assert_eq!(cursor(&e), (0, 2));

    select(&mut e, (0, 0), (0, 2));
    e.move_cursor(TextEditMoveDirection::Up, false, false);
    assert!(!e.selecting());
    assert_eq!((e.sel_start_pos(), e.sel_end_pos()), ((0, 0), (0, 0)));
    assert_eq!(cursor(&e), (0, 2));

    let mut f = editor(&["ab"], 0, 0);
    select(&mut f, (0, 0), (0, 1));
    f.move_cursor(TextEditMoveDirection::Left, true, false);
    assert!(!f.selecting());
    assert_eq!(cursor(&f), (0, 0));
}

#[test]
fn select_all_then_unshifted_moves_leave_no_selection() {
    let mut e = TextEditState::default();
    e.select_all();
    assert!(e.selecting());
    e.move_cursor(TextEditMoveDirection::Up, false, false);
    assert!(!e.selecting());
    e.select_all();
    e.move_cursor(TextEditMoveDirection::Left, false, false);
    assert!(!e.selecting());
    assert_eq!((e.sel_start_pos(), e.sel_end_pos()), ((0, 0), (0, 0)));
}

#[test]
fn moves_that_cannot_advance_still_extend_the_selection() {
    let mut e = editor(&["ab"], 0, 0);
    e.move_cursor(TextEditMoveDirection::Left, false, true);
    assert!(e.selecting());
    assert_eq!((e.sel_start_pos(), e.sel_end_pos()), ((0, 0), (0, 0)));
    assert_eq!(e.selected_text(), "");
    e.move_cursor(TextEditMoveDirection::Right, false, true);
    assert_eq!((e.sel_start_pos(), e.sel_end_pos()), ((0, 0), (0, 1)));

    let mut f = editor(&["ab", "cd"], 1, 1);
    select(&mut f, (0, 1), (1, 1));
    f.move_cursor(TextEditMoveDirection::Down, false, true);
    assert!(f.selecting());
    assert_eq!((f.sel_start_pos(), f.sel_end_pos()), ((0, 1), (1, 1)));
    assert_eq!(cursor(&f), (1, 1));
}

#[test]
fn vertical_moves_that_cannot_advance_still_run_the_scroll_clamp() {
    let mut e = editor(&["0", "1", "2", "3"], 3, 0);
    e.set_content_height(2);
    e.set_scroll_offset(0);
    e.move_cursor(TextEditMoveDirection::Down, false, false);
    assert_eq!(cursor(&e), (3, 0));
    assert_eq!(e.scroll_offset(), 2);
    let mut f = editor(&["0", "1", "2", "3"], 0, 0);
    f.set_content_height(2);
    f.set_scroll_offset(3);
    f.move_cursor(TextEditMoveDirection::Up, false, false);
    assert_eq!(cursor(&f), (0, 0));
    assert_eq!(f.scroll_offset(), 0);
    f.set_scroll_offset(3);
    f.move_cursor(TextEditMoveDirection::Left, false, false);
    assert_eq!(f.scroll_offset(), 3);
}

#[test]
fn vertical_moves_clamp_the_column() {
    let mut e = editor(&["hello", "hi"], 0, 5);
    e.move_cursor(TextEditMoveDirection::Down, false, false);
    assert_eq!(cursor(&e), (1, 2));
    e.move_cursor(TextEditMoveDirection::Up, false, false);
    assert_eq!(cursor(&e), (0, 2));
}

#[test]
fn word_moves_to_the_right() {
    let mut e = editor(&["hello world foo"], 0, 0);
    assert_eq!(e.next_whitespace_len(), 5);
    e.move_cursor(TextEditMoveDirection::Right, true, false);
    assert_eq!(e.cursor_pos(), 6);
    assert_eq!(e.next_whitespace_len(), 5);
    e.move_cursor(TextEditMoveDirection::Right, true, false);
    assert_eq!(e.cursor_pos(), 12);
    assert_eq!(e.next_whitespace_len(), 2);
    e.move_cursor(TextEditMoveDirection::Right, true, false);
    assert_eq!(e.cursor_pos(), 15);
    assert_eq!(e.next_whitespace_len(), 0);
    e.move_cursor(TextEditMoveDirection::Right, true, false);
    assert_eq!(e.cursor_pos(), 15);
}

#[test]
fn word_move_right_without_whitespace_reaches_end_of_line() {
    let mut e = editor(&["hello"], 0, 0);
    e.move_cursor(TextEditMoveDirection::Right, true, false);
    assert_eq!(e.cursor_pos(), 5);
}

#[test]
fn word_moves_to_the_left() {
    let mut e = editor(&["hello world foo"], 0, 15);
    assert_eq!(e.prev_whitespace_len(true), 4);
    e.move_cursor(TextEditMoveDirection::Left, true, false);
    assert_eq!(e.cursor_pos(), 12);
    assert_eq!(e.prev_whitespace_len(false), 1);
    assert_eq!(e.prev_whitespace_len(true), 7);
    e.move_cursor(TextEditMoveDirection::Left, true, false);
    assert_eq!(e.cursor_pos(), 6);
    assert_eq!(e.prev_whitespace_len(true), 6);
    e.move_cursor(TextEditMoveDirection::Left, true, false);
    assert_eq!(e.cursor_pos(), 0);
    assert_eq!(e.prev_whitespace_len(true), 0);
}

#[test]
fn word_move_with_extend_selects_the_word() {
    let mut e = editor(&["hello world"], 0, 0);
    e.move_cursor(TextEditMoveDirection::Right, true, true);
    assert_eq!(e.selected_text(), "hello ");
    assert_eq!((e.sel_start_pos(), e.sel_end_pos()), ((0, 0), (0, 6)));
}

#[test]
fn tabs_count_as_whitespace() {
    let mut e = editor(&["ab\tcd"], 0, 0);
    assert_eq!(e.next_whitespace_len(), 2);
    e.move_cursor(TextEditMoveDirection::Right, true, false);
    assert_eq!(e.cursor_pos(), 3);
}

#[test]
fn delete_word_removes_back_to_the_boundary() {
    let mut e = editor(&["hello world foo"], 0, 15);
    e.delete_word();
    assert_eq!(e.text_vec(), lines(&["hello world "]));
    assert_eq!(e.cursor_pos(), 12);
    e.delete_word();
    assert_eq!(e.text_vec(), lines(&["hello "]));
    assert_eq!(e.cursor_pos(), 6);
    e.delete_word();
    assert_eq!(e.text_vec(), lines(&[""]));
    assert_eq!(e.cursor_pos(), 0);
}

#[test]
fn delete_word_stays_within_its_line() {
    let mut e = editor(&["abc", "def"], 1, 0);
    e.delete_word();
    assert_eq!(e.text_vec(), lines(&["abc", "def"]));
    assert_eq!(cursor(&e), (1, 0));
    let mut f = editor(&["abc", "def"], 0, 3);
    f.delete_word_to_right();
    assert_eq!(f.text_vec(), lines(&["abc", "def"]));
    assert_eq!(cursor(&f), (0, 3));
}

#[test]
fn delete_word_to_right_removes_up_to_the_boundary() {
    let mut e = editor(&["hello world foo"], 0, 0);
    e.delete_word_to_right();
    assert_eq!(e.text_vec(), lines(&["world foo"]));
    assert_eq!(e.cursor_pos(), 0);
    e.delete_word_to_right();
    assert_eq!(e.text_vec(), lines(&["foo"]));
    e.delete_word_to_right();
    assert_eq!(e.text_vec(), lines(&[""]));
}

#[test]
fn delete_word_to_right_removes_nothing_before_the_last_character() {
    let mut e = editor(&["ab"], 0, 1);
    assert_eq!(e.next_whitespace_len(), 0);
    e.delete_word_to_right();
    assert_eq!(e.text_vec(), lines(&["ab"]));
    assert_eq!(cursor(&e), (0, 1));
    let mut f = editor(&["a b"], 0, 2);
    f.delete_word_to_right();
    assert_eq!(f.text_vec(), lines(&["a b"]));
    let mut g = editor(&["ab "], 0, 1);
    assert_eq!(g.next_whitespace_len(), 1);
    g.delete_word_to_right();
    assert_eq!(g.text_vec(), lines(&["a"]));
    assert_eq!(cursor(&g), (0, 1));
}

#[test]
fn delete_word_removes_selection_first() {
    let mut e = editor(&["hello world"], 0, 11);
    select(&mut e, (0, 0), (0, 2));
    e.delete_word();
    assert_eq!(e.text_vec(), lines(&["llo world"]));
    assert_eq!(cursor(&e), (0, 0));
    let mut f = editor(&["hello world"], 0, 0);
    select(&mut f, (0, 9), (0, 11));
    f.delete_word_to_right();
    assert_eq!(f.text_vec(), lines(&["hello wor"]));
    assert_eq!(cursor(&f), (0, 9));
}

#[test]
fn cursor_predicates_compare_with_the_selection() {
    let mut e = editor(&["hello", "world"], 0, 1);
    select(&mut e, (0, 2), (1, 3));
    assert!(e.cur_before_start());
    assert!(!e.cur_bet_start_and_end());
    assert!(!e.cur_after_end());
    e.set_cursor_pos(4);
    assert!(!e.cur_before_start());
    assert!(e.cur_bet_start_and_end());
    e.set_line_number(1);
    assert!(e.cur_after_end());
    assert!(!e.cur_bet_start_and_end());
    e.set_cursor_pos(3);
    assert!(!e.cur_after_end());
    assert!(!e.cur_bet_start_and_end());
    assert!(!e.cur_before_start());
}

#[test]
fn extending_from_inside_takes_over_the_end_ahead() {
    let mut e = editor(&["hello world"], 0, 4);
    select(&mut e, (0, 2), (0, 8));
    e.move_cursor(TextEditMoveDirection::Right, false, true);
    assert_eq!((e.sel_start_pos(), e.sel_end_pos()), ((0, 2), (0, 5)));
    let mut f = editor(&["hello world"], 0, 4);
    select(&mut f, (0, 2), (0, 8));
    f.move_cursor(TextEditMoveDirection::Left, false, true);
    assert_eq!((f.sel_start_pos(), f.sel_end_pos()), ((0, 3), (0, 8)));
}

#[test]
fn line_accessors_read_the_text() {
    let e = editor(&["hello", "hi"], 1, 1);
    assert_eq!(e.line(0), "hello");
    assert_eq!(e.line(7), "");
    assert_eq!(e.current_line(), "hi");
    assert_eq!(e.line_len(0), 5);
    assert_eq!(e.line_len(7), 0);
    assert_eq!(e.current_line_len(), 2);
}

#[test]
fn clone_copies_the_state() {
    let mut e = editor(&["hello", "hi"], 1, 1);
    let c = e.clone();
    e.insert_char('x');
    assert_eq!(c.text_vec(), lines(&["hello", "hi"]));
    assert_eq!(cursor(&c), (1, 1));
    assert_eq!(e.text_vec(), lines(&["hello", "hxi"]));
}

#[test]
fn reset_selection_clears_both_ends() {
    let mut e = editor(&["hello"], 0, 3);
    select(&mut e, (0, 1), (0, 3));
    e.reset_selection();
    assert!(!e.selecting());
    assert_eq!(e.sel_start_pos(), (0, 0));
    assert_eq!(e.sel_end_pos(), (0, 0));
    assert_eq!(e.text_vec(), lines(&["hello"]));
}
