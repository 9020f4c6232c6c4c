use dakia::chars::{
    char_count, appended, copy_strings, from_chars, insert_char_at, remove_chars, replace_chars,
    same_chars, slice_chars, split_chars, starts_with, to_chars,
};
use dakia::line_buffer::{join_all, split_into_lines, LineBuffer};
use dakia::words::{scan_next_whitespace, scan_prev_whitespace};

fn strings(v: &[&str]) -> Vec<String> {
    v.iter().map(|s| s.to_string()).collect()
}

#[test]
fn new_buffer_has_one_empty_line() {
    let b = LineBuffer::new();
    assert_eq!(b.len(), 1);
    assert_eq!(b.to_vec(), strings(&[""]));
}

#[test]
fn buffer_from_no_lines_has_one_empty_line() {
    let b = LineBuffer::from_lines(vec![]);
    assert_eq!(b.to_vec(), strings(&[""]));
    let c = LineBuffer::from_lines(strings(&["a", "b"]));
    assert_eq!(c.to_vec(), strings(&["a", "b"]));
    assert_eq!(c.len(), 2);
}

#[test]
fn split_line_cuts_at_column() {
    let b = LineBuffer::from_lines(strings(&["abcdef"]));
    let (left, right) = b.split_line(0, 2);
    assert_eq!((left.as_str(), right.as_str()), ("ab", "cdef"));
    let (left, right) = b.split_line(0, 6);
    assert_eq!((left.as_str(), right.as_str()), ("abcdef", ""));
}

#[test]
fn join_line_appends_next_line() {
    let mut b = LineBuffer::from_lines(strings(&["ab", "cd", "ef"]));
    b.join_line(0);
    assert_eq!(b.to_vec(), strings(&["abcd", "ef"]));
    b.join_line(1);
    assert_eq!(b.to_vec(), strings(&["abcd", "ef"]));
    b.join_line(9);
    assert_eq!(b.to_vec(), strings(&["abcd", "ef"]));
    b.join_line(0);
    assert_eq!(b.to_vec(), strings(&["abcdef"]));
    b.join_line(0);
    assert_eq!(b.to_vec(), strings(&["abcdef"]));
}

#[test]
fn insert_char_ignores_missing_lines() {
    let mut b = LineBuffer::from_lines(strings(&["ac"]));
    b.insert_char(0, 1, 'b');
    assert_eq!(b.to_vec(), strings(&["abc"]));
    b.insert_char(3, 0, 'x');
    assert_eq!(b.to_vec(), strings(&["abc"]));
    b.insert_char(0, 4, 'x');
    assert_eq!(b.to_vec(), strings(&["abc"]));
    b.insert_char(0, 3, 'd');
    assert_eq!(b.to_vec(), strings(&["abcd"]));
}

#[test]
fn remove_char_range_removes_columns() {
    let mut b = LineBuffer::from_lines(strings(&["abcdef", "x"]));
    b.remove_char_range(0, 1, 4);
    assert_eq!(b.to_vec(), strings(&["aef", "x"]));
    b.remove_char_range(0, 1, 1);
    assert_eq!(b.to_vec(), strings(&["aef", "x"]));
}

#[test]
fn buffer_line_primitives() {
    let mut b = LineBuffer::from_lines(strings(&["a", "b", "c", "d"]));
    assert_eq!(b.line(2), "c");
    assert_eq!(b.line_len(2), 1);
    assert_eq!(b.line_len(4), 0);
    b.set_line(1, "B".to_string());
    b.insert_line(4, "e".to_string());
    assert_eq!(b.to_vec(), strings(&["a", "B", "c", "d", "e"]));
    b.remove_lines(1, 4);
    assert_eq!(b.to_vec(), strings(&["a", "e"]));
    b.remove_lines(1, 1);
    assert_eq!(b.to_vec(), strings(&["a", "e"]));
    assert_eq!(b.joined(), "a\ne");
    let c = b.clone();
    assert_eq!(c.to_vec(), strings(&["a", "e"]));
}

#[test]
fn split_into_lines_cuts_at_line_feeds() {
    assert_eq!(split_into_lines(""), strings(&[""]));
    assert_eq!(split_into_lines("abc"), strings(&["abc"]));
    assert_eq!(split_into_lines("a\nb"), strings(&["a", "b"]));
    assert_eq!(split_into_lines("a\r\nb\r"), strings(&["a", "b"]));
    assert_eq!(split_into_lines("\n\n"), strings(&["", "", ""]));
}

#[test]
fn join_all_is_the_inverse_of_splitting() {
    assert_eq!(join_all(&strings(&[])), "");
    assert_eq!(join_all(&strings(&["a"])), "a");
    assert_eq!(join_all(&strings(&["a", "", "b"])), "a\n\nb");
    assert_eq!(join_all(&split_into_lines("x\ny\n")), "x\ny\n");
}

#[test]
fn char_helpers_count_characters() {
    let s = "héllo".to_string();
    assert_eq!(char_count(&s), 5);
    assert_eq!(slice_chars(&s, 1, 3), "él");
    assert_eq!(insert_char_at(&s, 2, 'x'), "héxllo");
    assert_eq!(insert_char_at(&s, 5, '!'), "héllo!");
    assert_eq!(remove_chars(&s, 0, 2), "llo");
    assert_eq!(appended(&s, &"!".to_string()), "héllo!");
    assert_eq!(to_chars("hé"), vec!['h', 'é']);
    assert_eq!(from_chars(&vec!['h', 'é']), "hé");
    assert_eq!(copy_strings(&strings(&["a", "b"])), strings(&["a", "b"]));
}

#[test]
fn same_chars_and_starts_with_compare_text() {
    assert!(same_chars("abc", "abc"));
    assert!(!same_chars("abc", "abd"));
    assert!(!same_chars("abc", "ab"));
    assert!(same_chars("", ""));
    assert!(starts_with("application/json; charset=utf-8", "application/json"));
    assert!(!starts_with("app", "application/json"));
    assert!(!starts_with("text/html", "application/json"));
    assert!(starts_with("abc", ""));
}

#[test]
fn split_chars_keeps_empty_pieces() {
    assert_eq!(split_chars("", ':', '?'), strings(&[""]));
    assert_eq!(split_chars("a:b?c", ':', '?'), strings(&["a", "b", "c"]));
    assert_eq!(split_chars(":a:", ':', ':'), strings(&["", "a", ""]));
    assert_eq!(split_chars("abc", '=', '='), strings(&["abc"]));
}

#[test]
fn replace_chars_replaces_every_occurrence() {
    assert_eq!(replace_chars("http://a://b", "://", ":"), "http:a:b");
    assert_eq!(replace_chars("aaa", "aa", "b"), "ba");
    assert_eq!(replace_chars("80/a80", "80", ""), "/a");
    assert_eq!(replace_chars("abc", "x", "y"), "abc");
    assert_eq!(replace_chars("", "x", "y"), "");
    assert_eq!(replace_chars("ab", "abc", "y"), "ab");
}

#[test]
fn whitespace_scans_count_to_the_boundary() {
    let line = to_chars("ab cd  ef");
    assert_eq!(scan_next_whitespace(&line, 0), 2);
    assert_eq!(scan_next_whitespace(&line, 2), 3);
    assert_eq!(scan_next_whitespace(&line, 5), 1);
    assert_eq!(scan_next_whitespace(&line, 7), 1);
    assert_eq!(scan_next_whitespace(&line, 8), 0);
    assert_eq!(scan_next_whitespace(&line, 9), 0);
    assert_eq!(scan_next_whitespace(&line, 20), 0);
    assert_eq!(scan_prev_whitespace(&line, 0, true), 0);
    assert_eq!(scan_prev_whitespace(&line, 9, false), 3);
    assert_eq!(scan_prev_whitespace(&line, 9, true), 3);
    assert_eq!(scan_prev_whitespace(&line, 7, false), 1);
    assert_eq!(scan_prev_whitespace(&line, 7, true), 2);
    assert_eq!(scan_prev_whitespace(&line, 3, true), 3);
    assert_eq!(scan_prev_whitespace(&line, 2, true), 2);
    assert_eq!(scan_prev_whitespace(&line, 1, true), 1);
}

#[test]
fn splitting_and_replacing_agree_with_the_standard_library() {
    let samples = ["", "a", "a:b", "::", "a?b:c?", "http://x:80/y?z", "://", "a://://b", "aaaa", "ab=cd=ef"];
    for s in samples {
        let std_split: Vec<String> = s.split(&[':', '?']).map(str::to_owned).collect();
        assert_eq!(split_chars(s, ':', '?'), std_split, "{}", s);
        let std_equals: Vec<String> = s.split('=').map(str::to_owned).collect();
        assert_eq!(split_chars(s, '=', '='), std_equals, "{}", s);
        assert_eq!(replace_chars(s, "://", ":"), s.replace("://", ":"), "{}", s);
        assert_eq!(replace_chars(s, "aa", ""), s.replace("aa", ""), "{}", s);
        assert_eq!(replace_chars(s, "a", "bb"), s.replace("a", "bb"), "{}", s);
        assert_eq!(starts_with(s, "a:"), s.starts_with("a:"), "{}", s);
        assert_eq!(same_chars(s, "a"), s == "a", "{}", s);
    }
}
