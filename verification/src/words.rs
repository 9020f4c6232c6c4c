//! Word boundaries within one line: whitespace characters delimit word-wise
//! cursor movement and word-wise deletion. The rules are stated over one
//! flag per character, which says whether the character is whitespace.

use vstd::prelude::*;
use crate::chars::{char_is_whitespace, is_whitespace};

verus! {

/// For each character of `s`, whether it is whitespace.
pub open spec fn whitespace_flags(s: Seq<char>) -> Seq<bool> {
    s.map_values(|c: char| is_whitespace(c))
}

/// Index of the first flag of `flags` that is set at or after `from`, or
/// `flags.len()` if there is none.
pub open spec fn first_set_from(flags: Seq<bool>, from: int) -> int
    decreases flags.len() - from,
{
    if from >= flags.len() {
        flags.len() as int
    } else if from >= 0 && flags[from] {
        from
    } else {
        first_set_from(flags, from + 1)
    }
}

/// Index of the last flag of `flags` that is set among the indices
/// `1..=upto`, or `0` if there is none. Index `0` itself is never examined.
pub open spec fn last_set_upto(flags: Seq<bool>, upto: int) -> int
    decreases upto,
{
    if upto <= 0 {
        0
    } else if upto < flags.len() && flags[upto] {
        upto
    } else {
        last_set_upto(flags, upto - 1)
    }
}

/// Number of places from column `col` to the first set flag strictly to its
/// right. Where none follows, the distance to the last place of the line;
/// `0` at or after the end of the line.
pub open spec fn gap_to_next(flags: Seq<bool>, col: int) -> int {
    if col >= flags.len() {
        0
    } else {
        let j = first_set_from(flags, col + 1);
        if j < flags.len() {
            j - col
        } else {
            flags.len() - col - 1
        }
    }
}

/// Number of places from column `col` back to the first set flag to its
/// left, the flag at index `0` not examined. With `skip_adjacent`, a set flag
/// immediately left of `col` is passed over first. Where none is found the
/// result is `col`.
pub open spec fn gap_to_prev(flags: Seq<bool>, col: int, skip_adjacent: bool) -> int {
    if col <= 0 {
        0
    } else {
        let from = if skip_adjacent && col >= 2 && col <= flags.len() && flags[col - 1] {
            col - 2
        } else {
            col - 1
        };
        col - last_set_upto(flags, from)
    }
}

/// Number of characters from column `col` to the first whitespace character
/// strictly to its right. Where no whitespace follows, the distance to the
/// last character of the line; `0` at or after the end of the line.
pub open spec fn next_whitespace_len(s: Seq<char>, col: int) -> int {
    gap_to_next(whitespace_flags(s), col)
}

/// Number of characters from column `col` back to the first whitespace
/// character to its left, the character at index `0` not examined. With
/// `skip_adjacent`, a whitespace character immediately left of `col` is
/// passed over first. Where no whitespace is found the result is `col`.
pub open spec fn prev_whitespace_len(s: Seq<char>, col: int, skip_adjacent: bool) -> int {
    gap_to_prev(whitespace_flags(s), col, skip_adjacent)
}

/// Column reached by a word-wise move to the right from `col`: just past the
/// next whitespace character, or the end of the line if none follows.
pub open spec fn word_right_target(s: Seq<char>, col: int) -> int {
    if col >= s.len() {
        col
    } else {
        col + next_whitespace_len(s, col) + 1
    }
}

/// Column reached by a word-wise move to the left from `col`: just past the
/// previous whitespace character, or the start of the line if none precedes.
pub open spec fn word_left_target(s: Seq<char>, col: int) -> int {
    let back = prev_whitespace_len(s, col, true);
    if back == col {
        0
    } else {
        col - back + 1
    }
}

/// `first_set_from` stays within `from..=flags.len()`, points at a set flag
/// when inside the line, and passes none on its way.
pub proof fn lemma_first_set_from(flags: Seq<bool>, from: int)
    requires
        0 <= from <= flags.len(),
    ensures
        from <= first_set_from(flags, from) <= flags.len(),
        first_set_from(flags, from) < flags.len() ==> flags[first_set_from(flags, from)],
        forall|k: int| from <= k < first_set_from(flags, from) ==> !#[trigger] flags[k],
    decreases flags.len() - from,
{
    if from < flags.len() && !flags[from] {
        lemma_first_set_from(flags, from + 1);
    }
}

/// `last_set_upto` stays within `0..=upto`, points at a set flag when
/// positive, and passes none on its way.
pub proof fn lemma_last_set_upto(flags: Seq<bool>, upto: int)
    requires
        0 <= upto < flags.len(),
    ensures
        0 <= last_set_upto(flags, upto) <= upto,
        last_set_upto(flags, upto) > 0 ==> flags[last_set_upto(flags, upto)],
        forall|k: int| last_set_upto(flags, upto) < k <= upto ==> !#[trigger] flags[k],
    decreases upto,
{
    if upto > 0 && !flags[upto] {
        lemma_last_set_upto(flags, upto - 1);
    }
}

/// A word-wise move to the right from inside the line advances by at least
/// one column and stays within the line.
pub proof fn lemma_word_right_target_bounds(s: Seq<char>, col: int)
    requires
        0 <= col < s.len(),
    ensures
        col < word_right_target(s, col) <= s.len(),
{
    lemma_first_set_from(whitespace_flags(s), col + 1);
}

/// A word-wise move to the left from a column past the start retreats by at
/// least one column and stays within the line.
pub proof fn lemma_word_left_target_bounds(s: Seq<char>, col: int)
    requires
        0 < col <= s.len(),
    ensures
        0 <= word_left_target(s, col) < col,
        0 < prev_whitespace_len(s, col, true) <= col,
        0 < prev_whitespace_len(s, col, false) <= col,
{
    lemma_last_set_upto(whitespace_flags(s), col - 1);
    if col >= 2 {
        lemma_last_set_upto(whitespace_flags(s), col - 2);
    }
}

/// Marks the whitespace characters of one line.
pub fn mark_whitespace(line: &Vec<char>) -> (flags: Vec<bool>)
    ensures
        flags@ == whitespace_flags(line@),
{
    let mut flags: Vec<bool> = Vec::new();
    let mut i: usize = 0;
    while i < line.len()
        invariant
            i <= line@.len(),
            flags@ == whitespace_flags(line@.take(i as int)),
        decreases line@.len() - i,
    {
        let flag = char_is_whitespace(line[i]);
        proof {
            assert(flags@.push(flag) =~= whitespace_flags(line@.take(i + 1)));
        }
        flags.push(flag);
        i = i + 1;
    }
    proof {
        assert(line@.take(i as int) =~= line@);
    }
    flags
}

/// Computes [`gap_to_next`].
pub fn next_gap(flags: &Vec<bool>, col: usize) -> (n: usize)
    ensures
        n == gap_to_next(flags@, col as int),
        col < flags@.len() ==> col + n < flags@.len(),
{
    let len = flags.len();
    if col >= len {
        return 0;
    }
    let mut k: usize = col + 1;
    while k < len
        invariant
            col < k <= len,
            len == flags@.len(),
            first_set_from(flags@, col + 1) == first_set_from(flags@, k as int),
        decreases len - k,
    {
        if flags[k] {
            return k - col;
        }
        k = k + 1;
    }
    len - col - 1
}

/// Computes [`gap_to_prev`].
pub fn prev_gap(flags: &Vec<bool>, col: usize, skip_adjacent: bool) -> (n: usize)
    requires
        col <= flags@.len(),
    ensures
        n == gap_to_prev(flags@, col as int, skip_adjacent),
        n <= col,
{
    if col == 0 {
        return 0;
    }
    let mut k: usize = col - 1;
    if skip_adjacent && col >= 2 && flags[col - 1] {
        k = col - 2;
    }
    let ghost from = k as int;
    while k > 0
        invariant
            k <= from < col <= flags@.len(),
            gap_to_prev(flags@, col as int, skip_adjacent) == col - last_set_upto(flags@, from),
            last_set_upto(flags@, from) == last_set_upto(flags@, k as int),
        decreases k,
    {
        if flags[k] {
            return col - k;
        }
        k = k - 1;
    }
    col
}

/// Computes [`next_whitespace_len`] on the characters of one line.
pub fn scan_next_whitespace(line: &Vec<char>, col: usize) -> (n: usize)
    ensures
        n == next_whitespace_len(line@, col as int),
        col < line@.len() ==> col + n < line@.len(),
{
    let flags = mark_whitespace(line);
    next_gap(&flags, col)
}

/// Computes [`prev_whitespace_len`] on the characters of one line.
pub fn scan_prev_whitespace(line: &Vec<char>, col: usize, skip_adjacent: bool) -> (n: usize)
    requires
        col <= line@.len(),
    ensures
        n == prev_whitespace_len(line@, col as int, skip_adjacent),
        n <= col,
{
    let flags = mark_whitespace(line);
    prev_gap(&flags, col, skip_adjacent)
}

} // verus!
