//! The text of the editor: an ordered, never empty sequence of lines, with the
//! line-level primitives that every edit is built from.

use vstd::prelude::*;
use crate::chars::{
    char_count, appended, copy_strings, insert_char_at, push_char, remove_chars, slice_chars,
    strings_view, to_chars,
};
use crate::text_model::{join_lines, split_lines};

verus! {

/// Cutting a text into lines gives at least one line.
pub proof fn lemma_split_lines_len(s: Seq<char>)
    ensures
        split_lines(s).len() >= 1,
    decreases s.len(),
{
    if s.len() > 0 {
        lemma_split_lines_len(s.drop_last());
    }
}

/// Cuts `content` into lines at its line feeds and drops its carriage
/// returns.
pub fn split_into_lines(content: &str) -> (v: Vec<String>)
    ensures
        strings_view(v@) == split_lines(content@),
        v@.len() >= 1,
{
    let chars = to_chars(content);
    let mut v: Vec<String> = Vec::new();
    let mut piece = String::new();
    let mut i: usize = 0;
    proof {
        assert(chars@.take(0) =~= Seq::<char>::empty());
        assert(strings_view(v@).push(piece@) =~= split_lines(chars@.take(0)));
    }
    while i < chars.len()
        invariant
            i <= chars@.len(),
            strings_view(v@).push(piece@) == split_lines(chars@.take(i as int)),
        decreases chars@.len() - i,
    {
        let c = chars[i];
        proof {
            assert(chars@.take(i + 1).drop_last() =~= chars@.take(i as int));
            assert(chars@.take(i + 1).last() == c);
        }
        if c == '\n' {
            proof {
                assert(strings_view(v@.push(piece)) =~= strings_view(v@).push(piece@));
            }
            v.push(piece);
            piece = String::new();
        } else if c != '\r' {
            let ghost head = strings_view(v@).push(piece@);
            push_char(&mut piece, c);
            proof {
                assert(strings_view(v@).push(piece@) =~= head.update(
                    head.len() - 1,
                    head.last().push(c),
                ));
            }
        }
        i = i + 1;
    }
    proof {
        assert(chars@.take(i as int) =~= chars@);
        assert(strings_view(v@.push(piece)) =~= strings_view(v@).push(piece@));
    }
    v.push(piece);
    v
}

/// The strings of `v` joined by line feeds.
pub fn join_all(v: &Vec<String>) -> (r: String)
    ensures
        r@ == join_lines(strings_view(v@)),
{
    if v.len() == 0 {
        return String::new();
    }
    let mut r = v[0].clone();
    let mut i: usize = 1;
    proof {
        assert(strings_view(v@).take(1)[0] == v@[0]@);
    }
    while i < v.len()
        invariant
            1 <= i <= v@.len(),
            r@ == join_lines(strings_view(v@).take(i as int)),
        decreases v@.len() - i,
    {
        proof {
            let next = strings_view(v@).take(i + 1);
            assert(next.drop_last() =~= strings_view(v@).take(i as int));
            assert(next.last() == v@[i as int]@);
        }
        push_char(&mut r, '\n');
        r.append(v[i].as_str());
        proof {
            assert(r@ =~= join_lines(strings_view(v@).take(i as int)) + seq!['\n'] + v@[i as int]@);
        }
        i = i + 1;
    }
    proof {
        assert(strings_view(v@).take(i as int) =~= strings_view(v@));
    }
    r
}

/// The lines of a text. Index is line number; there is always at least one
/// line.
pub struct LineBuffer {
    lines: Vec<String>,
}

impl View for LineBuffer {
    type V = Seq<Seq<char>>;

    closed spec fn view(&self) -> Seq<Seq<char>> {
        strings_view(self.lines@)
    }
}

impl Clone for LineBuffer {
    fn clone(&self) -> (b: Self)
        ensures
            b@ == self@,
    {
        LineBuffer { lines: copy_strings(&self.lines) }
    }
}

impl LineBuffer {
    /// A buffer always holds at least one line.
    pub open spec fn wf(&self) -> bool {
        self@.len() >= 1
    }

    /// A buffer of one empty line.
    pub fn new() -> (b: Self)
        ensures
            b.wf(),
            b@ == seq![Seq::<char>::empty()],
    {
        let mut lines: Vec<String> = Vec::new();
        lines.push(String::new());
        let b = LineBuffer { lines };
        proof {
            assert(b@ =~= seq![Seq::<char>::empty()]);
        }
        b
    }

    /// A buffer holding `lines`; an empty vector gives the buffer of one
    /// empty line.
    pub fn from_lines(lines: Vec<String>) -> (b: Self)
        ensures
            b.wf(),
            b@ == if lines@.len() == 0 {
                seq![Seq::<char>::empty()]
            } else {
                strings_view(lines@)
            },
    {
        if lines.len() == 0 {
            LineBuffer::new()
        } else {
            LineBuffer { lines }
        }
    }

    /// Number of lines.
    pub fn len(&self) -> (n: usize)
        ensures
            n == self@.len(),
    {
        self.lines.len()
    }

    /// The line at index `line`.
    pub fn line(&self, line: usize) -> (s: &String)
        requires
            line < self@.len(),
        ensures
            s@ == self@[line as int],
    {
        &self.lines[line]
    }

    /// Number of characters of the line at index `line`; `0` where there is
    /// no such line.
    pub fn line_len(&self, line: usize) -> (n: usize)
        ensures
            n == if line < self@.len() {
                self@[line as int].len()
            } else {
                0
            },
    {
        if line < self.lines.len() {
            char_count(&self.lines[line])
        } else {
            0
        }
    }

    /// Whether no line has more than `max` characters.
    pub fn lines_fit(&self, max: usize) -> (b: bool)
        ensures
            b == forall|i: int| 0 <= i < self@.len() ==> (#[trigger] self@[i]).len() <= max,
    {
        let mut i: usize = 0;
        while i < self.lines.len()
            invariant
                i <= self.lines@.len(),
                self.lines@.len() == self@.len(),
                forall|k: int| 0 <= k < i ==> (#[trigger] self@[k]).len() <= max,
            decreases self.lines@.len() - i,
        {
            if char_count(&self.lines[i]) > max {
                proof {
                    assert(self@[i as int].len() > max);
                }
                return false;
            }
            i = i + 1;
        }
        true
    }

    /// A copy of the lines.
    pub fn to_vec(&self) -> (v: Vec<String>)
        ensures
            strings_view(v@) == self@,
    {
        let mut v: Vec<String> = Vec::new();
        let mut i: usize = 0;
        while i < self.lines.len()
            invariant
                i <= self.lines@.len(),
                strings_view(v@) == self@.take(i as int),
            decreases self.lines@.len() - i,
        {
            let s = self.lines[i].clone();
            proof {
                assert(strings_view(v@).len() == i);
                assert forall|j: int| 0 <= j < i implies strings_view(v@.push(s))[j] == self@[j] by {
                    assert(strings_view(v@)[j] == self@.take(i as int)[j]);
                }
                assert(strings_view(v@.push(s)) =~= self@.take(i + 1));
            }
            v.push(s);
            i = i + 1;
        }
        proof {
            assert(self@.take(i as int) =~= self@);
        }
        v
    }

    /// The whole text, lines separated by line feeds.
    pub fn joined(&self) -> (r: String)
        ensures
            r@ == join_lines(self@),
    {
        join_all(&self.lines)
    }

    /// Replaces the line at index `line` by `s`.
    pub fn set_line(&mut self, line: usize, s: String)
        requires
            line < old(self)@.len(),
        ensures
            final(self)@ == old(self)@.update(line as int, s@),
    {
        self.lines[line] = s;
        proof {
            assert(self@ =~= old(self)@.update(line as int, s@));
        }
    }

    /// Inserts `s` as a new line before index `line`.
    pub fn insert_line(&mut self, line: usize, s: String)
        requires
            line <= old(self)@.len(),
        ensures
            final(self)@ == old(self)@.insert(line as int, s@),
    {
        self.lines.insert(line, s);
        proof {
            assert(self@ =~= old(self)@.insert(line as int, s@));
        }
    }

    /// Removes the lines at indices `from..to`. The buffer must keep a line.
    pub fn remove_lines(&mut self, from: usize, to: usize)
        requires
            from <= to <= old(self)@.len(),
            to - from < old(self)@.len(),
        ensures
            final(self)@ == old(self)@.take(from as int) + old(self)@.skip(to as int),
            final(self).wf(),
    {
        let mut k: usize = from;
        proof {
            assert(self@ =~= old(self)@.take(from as int) + old(self)@.skip(k as int));
        }
        while k < to
            invariant
                from <= k <= to <= old(self)@.len(),
                self@ == old(self)@.take(from as int) + old(self)@.skip(k as int),
            decreases to - k,
        {
            let ghost before = self@;
            proof {
                assert(self.lines@.len() == before.len());
            }
            self.lines.remove(from);
            proof {
                assert(self@ =~= before.remove(from as int));
                assert(before.remove(from as int) =~= old(self)@.take(from as int) + old(
                    self,
                )@.skip(k + 1));
            }
            k = k + 1;
        }
    }

    /// The two halves of the line at index `line`, cut at `column`.
    pub fn split_line(&self, line: usize, column: usize) -> (halves: (String, String))
        requires
            line < self@.len(),
            column <= self@[line as int].len(),
        ensures
            halves.0@ == self@[line as int].take(column as int),
            halves.1@ == self@[line as int].skip(column as int),
    {
        let s = &self.lines[line];
        let n = char_count(s);
        (slice_chars(s, 0, column), slice_chars(s, column, n))
    }

    /// Appends the line after `line` to line `line` and removes it. Nothing
    /// changes where there is no line after `line`.
    pub fn join_line(&mut self, line: usize)
        requires
            old(self).wf(),
        ensures
            final(self).wf(),
            final(self)@ == if line + 1 < old(self)@.len() {
                old(self)@.update(
                    line as int,
                    old(self)@[line as int] + old(self)@[line + 1],
                ).remove(line + 1)
            } else {
                old(self)@
            },
    {
        if line < self.lines.len() && line + 1 < self.lines.len() {
            let joined = appended(&self.lines[line], &self.lines[line + 1]);
            self.set_line(line, joined);
            self.remove_lines(line + 1, line + 2);
            proof {
                assert(self@ =~= old(self)@.update(
                    line as int,
                    old(self)@[line as int] + old(self)@[line + 1],
                ).remove(line + 1));
            }
        }
    }

    /// Inserts `ch` into the line at index `line` before `column`. Nothing
    /// changes where there is no such line or column.
    pub fn insert_char(&mut self, line: usize, column: usize, ch: char)
        ensures
            final(self)@ == if line < old(self)@.len() && column <= old(self)@[line as int].len() {
                old(self)@.update(line as int, old(self)@[line as int].insert(column as int, ch))
            } else {
                old(self)@
            },
    {
        if line < self.lines.len() {
            if column <= char_count(&self.lines[line]) {
                let s = insert_char_at(&self.lines[line], column, ch);
                self.set_line(line, s);
            }
        }
    }

    /// Removes the characters at columns `start..end` of the line at index
    /// `line`.
    pub fn remove_char_range(&mut self, line: usize, start: usize, end: usize)
        requires
            line < old(self)@.len(),
            start <= end <= old(self)@[line as int].len(),
        ensures
            final(self)@ == old(self)@.update(
                line as int,
                old(self)@[line as int].take(start as int) + old(self)@[line as int].skip(
                    end as int,
                ),
            ),
    {
        let s = remove_chars(&self.lines[line], start, end);
        self.set_line(line, s);
    }
}

} // verus!
