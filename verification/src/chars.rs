//! Character-level helpers on `String`, stated over `Seq<char>`.

use vstd::prelude::*;
use vstd::std_specs::iter::IteratorSpec;

verus! {

/// Whether `c` counts as whitespace, as `char::is_whitespace` decides it.
pub uninterp spec fn is_whitespace(c: char) -> bool;

/// The characters of each string of `v`, in order.
pub open spec fn strings_view(v: Seq<String>) -> Seq<Seq<char>> {
    v.map_values(|s: String| s@)
}

/// The pieces that `s` is cut into at each occurrence of the separators `a`
/// and `b`; the separators themselves are dropped. There is always at least
/// one piece.
pub open spec fn split_on(s: Seq<char>, a: char, b: char) -> Seq<Seq<char>>
    decreases s.len(),
{
    if s.len() == 0 {
        seq![Seq::empty()]
    } else {
        let head = split_on(s.drop_last(), a, b);
        let c = s.last();
        if c == a || c == b {
            head.push(Seq::empty())
        } else {
            head.update(head.len() - 1, head.last().push(c))
        }
    }
}

/// Cutting into pieces gives at least one piece.
pub proof fn lemma_split_on_len(s: Seq<char>, a: char, b: char)
    ensures
        split_on(s, a, b).len() >= 1,
    decreases s.len(),
{
    if s.len() > 0 {
        lemma_split_on_len(s.drop_last(), a, b);
    }
}

/// Whether `c` counts as numeric, as `char::is_numeric` decides it.
pub uninterp spec fn is_numeric(c: char) -> bool;

/// Calls `char::is_numeric`. The result is the named predicate
/// [`is_numeric`]; nothing more is claimed of it.
#[verifier::external_body]
pub(crate) fn char_is_numeric(c: char) -> (b: bool)
    ensures
        b == is_numeric(c),
{
    c.is_numeric()
}

/// `s` with each occurrence of `pat` replaced by `with`, found from left to
/// right without overlap. An empty `pat` occurs nowhere.
pub open spec fn replace_all(s: Seq<char>, pat: Seq<char>, with: Seq<char>) -> Seq<char>
    decreases s.len(),
{
    if pat.len() == 0 || s.len() < pat.len() {
        s
    } else if s.take(pat.len() as int) == pat {
        with + replace_all(s.skip(pat.len() as int), pat, with)
    } else {
        seq![s[0]] + replace_all(s.skip(1), pat, with)
    }
}

/// Calls `char::is_whitespace`. The result is the named predicate
/// [`is_whitespace`]; nothing more is claimed of it.
#[verifier::external_body]
pub(crate) fn char_is_whitespace(c: char) -> (b: bool)
    ensures
        b == is_whitespace(c),
{
    c.is_whitespace()
}

/// Calls `String::push`: appends the one character `c` to `s`.
#[verifier::external_body]
pub(crate) fn push_char(s: &mut String, c: char)
    ensures
        final(s)@ == old(s)@.push(c),
{
    s.push(c)
}

/// The characters of `s`, in order.
pub fn to_chars(s: &str) -> (v: Vec<char>)
    ensures
        v@ == s@,
{
    broadcast use vstd::string::group_string_axioms;

    let mut it = s.chars();
    let mut v: Vec<char> = Vec::new();
    loop
        invariant
            v@ + it.remaining() == s@,
            it.decrease() is Some,
        decreases it.decrease()->0,
    {
        match it.next() {
            Some(c) => {
                proof {
                    assert(v@.push(c) + it.remaining() =~= s@);
                }
                v.push(c);
            },
            None => {
                proof {
                    assert(v@ =~= s@);
                }
                return v;
            },
        }
    }
}

/// The characters of `v` as a string.
pub fn from_chars(v: &Vec<char>) -> (s: String)
    ensures
        s@ == v@,
{
    let mut s = String::new();
    let mut i: usize = 0;
    while i < v.len()
        invariant
            i <= v@.len(),
            s@ == v@.take(i as int),
        decreases v@.len() - i,
    {
        push_char(&mut s, v[i]);
        proof {
            assert(s@ =~= v@.take(i + 1));
        }
        i = i + 1;
    }
    proof {
        assert(v@.take(i as int) =~= v@);
    }
    s
}

/// Whether `a` and `b` hold the same characters.
pub fn same_chars(a: &str, b: &str) -> (same: bool)
    ensures
        same == (a@ == b@),
{
    let x = to_chars(a);
    let y = to_chars(b);
    if x.len() != y.len() {
        return false;
    }
    let mut i: usize = 0;
    while i < x.len()
        invariant
            i <= x@.len(),
            x@ == a@,
            y@ == b@,
            x@.len() == y@.len(),
            x@.take(i as int) == y@.take(i as int),
        decreases x@.len() - i,
    {
        if x[i] != y[i] {
            return false;
        }
        proof {
            assert(x@.take(i + 1) =~= x@.take(i as int).push(x@[i as int]));
            assert(y@.take(i + 1) =~= y@.take(i as int).push(y@[i as int]));
        }
        i = i + 1;
    }
    proof {
        assert(x@.take(i as int) =~= x@);
        assert(y@.take(i as int) =~= y@);
    }
    true
}

/// Cuts `s` into pieces at each occurrence of `a` or `b`.
pub fn split_chars(s: &str, a: char, b: char) -> (v: Vec<String>)
    ensures
        strings_view(v@) == split_on(s@, a, b),
        v@.len() >= 1,
{
    let chars = to_chars(s);
    let mut v: Vec<String> = Vec::new();
    let mut piece = String::new();
    let mut i: usize = 0;
    proof {
        assert(chars@.take(0) =~= Seq::<char>::empty());
        assert(strings_view(v@).push(piece@) =~= split_on(chars@.take(0), a, b));
    }
    while i < chars.len()
        invariant
            i <= chars@.len(),
            strings_view(v@).push(piece@) == split_on(chars@.take(i as int), a, b),
        decreases chars@.len() - i,
    {
        let c = chars[i];
        proof {
            assert(chars@.take(i + 1).drop_last() =~= chars@.take(i as int));
            assert(chars@.take(i + 1).last() == c);
        }
        if c == a || c == b {
            proof {
                assert(strings_view(v@.push(piece)) =~= strings_view(v@).push(piece@));
            }
            v.push(piece);
            piece = String::new();
        } else {
            let ghost head = strings_view(v@).push(piece@);
            push_char(&mut piece, c);
            proof {
                assert(strings_view(v@).push(piece@) =~= head.update(
                    head.len() - 1,
                    head.last().push(c),
                ));
            }
        }
        i = i + 1;
    }
    proof {
        assert(chars@.take(i as int) =~= chars@);
        assert(strings_view(v@.push(piece)) =~= strings_view(v@).push(piece@));
    }
    v.push(piece);
    v
}

/// A copy of the strings of `v`.
pub fn copy_strings(v: &Vec<String>) -> (r: Vec<String>)
    ensures
        strings_view(r@) == strings_view(v@),
{
    let mut r: Vec<String> = Vec::new();
    let mut i: usize = 0;
    while i < v.len()
        invariant
            i <= v@.len(),
            strings_view(r@) == strings_view(v@).take(i as int),
        decreases v@.len() - i,
    {
        let s = v[i].clone();
        proof {
            assert(strings_view(r@).len() == i);
            assert forall|j: int| 0 <= j < i implies strings_view(r@.push(s))[j] == strings_view(
                v@,
            )[j] by {
                assert(strings_view(r@)[j] == strings_view(v@).take(i as int)[j]);
            }
            assert(strings_view(r@.push(s)) =~= strings_view(v@).take(i + 1));
        }
        r.push(s);
        i = i + 1;
    }
    proof {
        assert(strings_view(v@).take(i as int) =~= strings_view(v@));
    }
    r
}

/// Whether `pat` occurs in `s` at index `at`.
fn occurs_at(s: &Vec<char>, at: usize, pat: &Vec<char>) -> (b: bool)
    requires
        at <= s@.len(),
    ensures
        b == (pat@.len() <= s@.len() - at && s@.skip(at as int).take(pat@.len() as int) == pat@),
{
    if pat.len() > s.len() - at {
        return false;
    }
    let ghost window = s@.skip(at as int).take(pat@.len() as int);
    let mut i: usize = 0;
    while i < pat.len()
        invariant
            at <= s@.len() <= usize::MAX,
            i <= pat@.len() <= s@.len() - at,
            window == s@.skip(at as int).take(pat@.len() as int),
            window.take(i as int) == pat@.take(i as int),
        decreases pat@.len() - i,
    {
        if s[at + i] != pat[i] {
            proof {
                assert(window[i as int] != pat@[i as int]);
            }
            return false;
        }
        proof {
            assert(window.take(i + 1) =~= window.take(i as int).push(window[i as int]));
            assert(pat@.take(i + 1) =~= pat@.take(i as int).push(pat@[i as int]));
        }
        i = i + 1;
    }
    proof {
        assert(window.take(i as int) =~= window);
        assert(pat@.take(i as int) =~= pat@);
    }
    true
}

/// Whether `s` starts with `prefix`.
pub fn starts_with(s: &str, prefix: &str) -> (b: bool)
    ensures
        b == (prefix@.len() <= s@.len() && s@.take(prefix@.len() as int) == prefix@),
{
    let text = to_chars(s);
    let pattern = to_chars(prefix);
    proof {
        assert(text@.skip(0) =~= text@);
    }
    occurs_at(&text, 0, &pattern)
}

/// `s` with each occurrence of `pat` replaced by `with`.
pub fn replace_chars(s: &str, pat: &str, with: &str) -> (r: String)
    requires
        pat@.len() > 0,
    ensures
        r@ == replace_all(s@, pat@, with@),
{
    let text = to_chars(s);
    let pattern = to_chars(pat);
    let mut r = String::new();
    let mut i: usize = 0;
    proof {
        assert(text@.skip(0) =~= text@);
        assert(r@ + replace_all(text@.skip(0), pattern@, with@) =~= replace_all(
            text@,
            pattern@,
            with@,
        ));
    }
    while i < text.len()
        invariant
            i <= text@.len(),
            pattern@.len() > 0,
            r@ + replace_all(text@.skip(i as int), pattern@, with@) == replace_all(
                text@,
                pattern@,
                with@,
            ),
        decreases text@.len() - i,
    {
        let ghost rest = text@.skip(i as int);
        if occurs_at(&text, i, &pattern) {
            let ghost before = r@;
            r.append(with);
            proof {
                assert(rest.skip(pattern@.len() as int) =~= text@.skip(i + pattern@.len()));
                assert(r@ + replace_all(text@.skip(i + pattern@.len()), pattern@, with@)
                    =~= before + replace_all(rest, pattern@, with@));
            }
            i = i + pattern.len();
        } else {
            let ghost before = r@;
            push_char(&mut r, text[i]);
            proof {
                assert(rest.skip(1) =~= text@.skip(i + 1));
                if rest.len() < pattern@.len() {
                    assert(text@.skip(i + 1).len() < pattern@.len());
                    assert(rest =~= seq![rest[0]] + text@.skip(i + 1));
                }
                assert(r@ + replace_all(text@.skip(i + 1), pattern@, with@) =~= before
                    + replace_all(rest, pattern@, with@));
            }
            i = i + 1;
        }
    }
    proof {
        assert(text@.skip(i as int) =~= Seq::<char>::empty());
        assert(r@ + Seq::<char>::empty() =~= r@);
    }
    r
}

/// Number of characters in `s`.
pub fn char_count(s: &String) -> (n: usize)
    ensures
        n == s@.len(),
{
    s.as_str().unicode_len()
}

/// The characters of `s` from `from` up to, not including, `to`.
pub fn slice_chars(s: &String, from: usize, to: usize) -> (r: String)
    requires
        from <= to <= s@.len(),
    ensures
        r@ == s@.subrange(from as int, to as int),
{
    String::from_str(s.as_str().substring_char(from, to))
}

/// `a` followed by `b`.
pub fn appended(a: &String, b: &String) -> (r: String)
    ensures
        r@ == a@ + b@,
{
    let mut r = a.clone();
    r.append(b.as_str());
    r
}

/// `s` with `c` inserted before the character at index `at`.
pub fn insert_char_at(s: &String, at: usize, c: char) -> (r: String)
    requires
        at <= s@.len(),
    ensures
        r@ == s@.insert(at as int, c),
{
    let n = char_count(s);
    let mut r = slice_chars(s, 0, at);
    push_char(&mut r, c);
    r.append(s.as_str().substring_char(at, n));
    proof {
        assert(r@ =~= s@.insert(at as int, c));
    }
    r
}

/// `s` without the characters at indices `from..to`.
pub fn remove_chars(s: &String, from: usize, to: usize) -> (r: String)
    requires
        from <= to <= s@.len(),
    ensures
        r@ == s@.subrange(0, from as int) + s@.subrange(to as int, s@.len() as int),
{
    let n = char_count(s);
    let mut r = slice_chars(s, 0, from);
    r.append(s.as_str().substring_char(to, n));
    r
}

} // verus!
