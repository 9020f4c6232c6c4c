//! Helpers on URLs and on lines of text.

use vstd::prelude::*;
use crate::chars::{char_count, push_char, slice_chars, strings_view};
use crate::kv_data::KVDataView;
use crate::url_params::{params_view, Param};

verus! {

/// The query string that `params` make: each parameter that has both a name
/// and a value as `name=value`, the first after `?`, the others after `&`.
pub open spec fn query_of(params: Seq<KVDataView>) -> Seq<char>
    decreases params.len(),
{
    if params.len() == 0 {
        Seq::empty()
    } else {
        let head = query_of(params.drop_last());
        let p = params.last();
        if p.key.len() > 0 && p.value.len() > 0 {
            head + seq![if head.len() == 0 {
                '?'
            } else {
                '&'
            }] + p.key + seq!['='] + p.value
        } else {
            head
        }
    }
}

/// `url` followed by the query string of `params`; empty for an empty
/// `url`.
pub fn url_with_params(url: String, params: Vec<Param>) -> (r: String)
    ensures
        r@ == if url@.len() == 0 {
            Seq::empty()
        } else {
            url@ + query_of(params_view(params@))
        },
{
    if url.as_str().is_empty() {
        return String::new();
    }
    let mut new_url = url.clone();
    let mut appended = false;
    let mut i: usize = 0;
    proof {
        assert(params_view(params@).take(0) =~= Seq::empty());
    }
    while i < params.len()
        invariant
            i <= params@.len(),
            new_url@ == url@ + query_of(params_view(params@).take(i as int)),
            appended == (query_of(params_view(params@).take(i as int)).len() > 0),
        decreases params@.len() - i,
    {
        let name = params[i].clone().name();
        let value = params[i].clone().value();
        proof {
            assert(params_view(params@).take(i + 1).drop_last() =~= params_view(params@).take(
                i as int,
            ));
            assert(params_view(params@).take(i + 1).last() == params@[i as int]@);
        }
        if !name.as_str().is_empty() && !value.as_str().is_empty() {
            let ghost head = query_of(params_view(params@).take(i as int));
            if appended {
                push_char(&mut new_url, '&');
            } else {
                push_char(&mut new_url, '?');
                appended = true;
            }
            new_url.append(name.as_str());
            push_char(&mut new_url, '=');
            new_url.append(value.as_str());
            proof {
                assert(new_url@ =~= url@ + (head + seq![if head.len() == 0 {
                    '?'
                } else {
                    '&'
                }] + name@ + seq!['='] + value@));
            }
        }
        i = i + 1;
    }
    proof {
        assert(params_view(params@).take(i as int) =~= params_view(params@));
    }
    new_url
}

/// `s` cut into pieces of `width` characters, the last one possibly
/// shorter; no piece for an empty `s`.
pub open spec fn chunks_of(s: Seq<char>, width: int) -> Seq<Seq<char>>
    decreases s.len(),
{
    if s.len() == 0 || width <= 0 {
        Seq::empty()
    } else if s.len() <= width {
        seq![s]
    } else {
        seq![s.take(width)] + chunks_of(s.skip(width), width)
    }
}

/// Cuts `input` into strings of `max_width` characters, to wrap a line.
pub fn string_chunks(input: &String, max_width: usize) -> (chunks: Vec<String>)
    requires
        max_width > 0,
    ensures
        strings_view(chunks@) == chunks_of(input@, max_width as int),
{
    let n = char_count(input);
    let mut chunks: Vec<String> = Vec::new();
    let mut at: usize = 0;
    proof {
        assert(input@.skip(0) =~= input@);
        assert(strings_view(chunks@) + chunks_of(input@.skip(0), max_width as int) =~= chunks_of(
            input@,
            max_width as int,
        ));
    }
    while at < n
        invariant
            at <= n == input@.len(),
            max_width > 0,
            strings_view(chunks@) + chunks_of(input@.skip(at as int), max_width as int)
                == chunks_of(input@, max_width as int),
        decreases n - at,
    {
        let end = if n - at <= max_width {
            n
        } else {
            at + max_width
        };
        let piece = slice_chars(input, at, end);
        proof {
            let rest = input@.skip(at as int);
            assert(piece@ =~= rest.take(end - at));
            assert(rest.skip(end - at) =~= input@.skip(end as int));
            if end == n {
                assert(rest.take(end - at) =~= rest);
                assert(chunks_of(input@.skip(end as int), max_width as int) =~= Seq::empty());
            }
            assert(strings_view(chunks@.push(piece)) =~= strings_view(chunks@).push(piece@));
            assert(strings_view(chunks@).push(piece@) + chunks_of(
                input@.skip(end as int),
                max_width as int,
            ) =~= strings_view(chunks@) + chunks_of(rest, max_width as int));
        }
        chunks.push(piece);
        at = end;
    }
    proof {
        assert(chunks_of(input@.skip(at as int), max_width as int) =~= Seq::empty());
        assert(strings_view(chunks@) + Seq::<Seq<char>>::empty() =~= strings_view(chunks@));
    }
    chunks
}

/// The lines of `lines`, each longer than `width` characters cut into
/// pieces of `width`.
pub open spec fn wrapped(lines: Seq<Seq<char>>, width: int) -> Seq<Seq<char>>
    decreases lines.len(),
{
    if lines.len() == 0 {
        Seq::empty()
    } else if lines.last().len() > width {
        wrapped(lines.drop_last(), width) + chunks_of(lines.last(), width)
    } else {
        wrapped(lines.drop_last(), width).push(lines.last())
    }
}

/// Wraps each of `lines` that is longer than `width` characters.
pub fn wrap_lines(lines: &Vec<String>, width: usize) -> (r: Vec<String>)
    requires
        width > 0,
    ensures
        strings_view(r@) == wrapped(strings_view(lines@), width as int),
{
    let mut r: Vec<String> = Vec::new();
    let mut i: usize = 0;
    proof {
        assert(strings_view(lines@).take(0) =~= Seq::empty());
        assert(strings_view(r@) =~= Seq::empty());
    }
    while i < lines.len()
        invariant
            i <= lines@.len(),
            width > 0,
            strings_view(r@) == wrapped(strings_view(lines@).take(i as int), width as int),
        decreases lines@.len() - i,
    {
        proof {
            assert(strings_view(lines@).take(i + 1).drop_last() =~= strings_view(lines@).take(
                i as int,
            ));
            assert(strings_view(lines@).take(i + 1).last() == lines@[i as int]@);
        }
        if char_count(&lines[i]) > width {
            let mut pieces = string_chunks(&lines[i], width);
            let ghost before = r@;
            let ghost added = pieces@;
            r.append(&mut pieces);
            proof {
                assert(r@ == before + added);
                assert(strings_view(before + added) =~= strings_view(before) + strings_view(added));
            }
        } else {
            let line = lines[i].clone();
            proof {
                assert(strings_view(r@.push(line)) =~= strings_view(r@).push(line@));
            }
            r.push(line);
        }
        i = i + 1;
    }
    proof {
        assert(strings_view(lines@).take(i as int) =~= strings_view(lines@));
    }
    r
}

/// The lines shown of `total` lines in a viewport of `height` lines
/// scrolled to `scroll`: all of them where they fit, else those from `scroll`
/// on, as far as the viewport and the lines reach.
pub open spec fn shown_range(total: int, height: int, scroll: int) -> (int, int) {
    if total <= height {
        (0, total)
    } else if scroll >= total {
        (total, total)
    } else if scroll + height > total {
        (scroll, total)
    } else {
        (scroll, scroll + height)
    }
}

/// The indices `start..end` of the lines to show.
pub fn visible_range(total: usize, height: usize, scroll: usize) -> (range: (usize, usize))
    ensures
        (range.0 as int, range.1 as int) == shown_range(total as int, height as int, scroll as int),
        range.0 <= range.1 <= total,
{
    if total <= height {
        (0, total)
    } else if scroll >= total {
        (total, total)
    } else if height > total - scroll {
        (scroll, total)
    } else {
        (scroll, scroll + height)
    }
}

} // verus!
