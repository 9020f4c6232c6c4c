//! One key-value row, as the query parameters, the headers and the form
//! fields of a request are edited.

use vstd::prelude::*;
use crate::chars::{push_char, split_chars, split_on};

verus! {

/// A key and a value as plain character sequences.
pub struct KVDataView {
    pub key: Seq<char>,
    pub value: Seq<char>,
}

impl KVDataView {
    /// The row with an empty key and an empty value.
    pub open spec fn empty() -> Self {
        KVDataView { key: Seq::empty(), value: Seq::empty() }
    }

    /// The row that `input` denotes: the key is what precedes the first
    /// `=`; the value is what follows it, unless there is a second `=`, in
    /// which case, as without any `=`, the value is empty.
    pub open spec fn parse(input: Seq<char>) -> Self {
        let tokens = split_on(input, '=', '=');
        KVDataView {
            key: tokens[0],
            value: if tokens.len() == 2 {
                tokens[1]
            } else {
                Seq::empty()
            },
        }
    }

    /// `key=value` where both are present, the key alone where only the key
    /// is, and nothing otherwise.
    pub open spec fn text(self) -> Seq<char> {
        if self.key.len() > 0 && self.value.len() > 0 {
            self.key + seq!['='] + self.value
        } else if self.key.len() > 0 {
            self.key
        } else {
            Seq::empty()
        }
    }
}

/// The rows of `rows` as plain values.
pub open spec fn rows_view(rows: Seq<KVData>) -> Seq<KVDataView> {
    rows.map_values(|r: KVData| r@)
}

/// A copy of `rows`.
pub fn copy_rows(rows: &Vec<KVData>) -> (r: Vec<KVData>)
    ensures
        rows_view(r@) == rows_view(rows@),
{
    let mut r: Vec<KVData> = Vec::new();
    let mut i: usize = 0;
    while i < rows.len()
        invariant
            i <= rows@.len(),
            rows_view(r@) == rows_view(rows@).take(i as int),
        decreases rows@.len() - i,
    {
        let row = rows[i].clone();
        proof {
            assert(rows_view(r@).len() == i);
            assert forall|j: int| 0 <= j < i implies rows_view(r@.push(row))[j] == rows_view(
                rows@,
            )[j] by {
                assert(rows_view(r@)[j] == rows_view(rows@).take(i as int)[j]);
            }
            assert(rows_view(r@.push(row)) =~= rows_view(rows@).take(i + 1));
        }
        r.push(row);
        i = i + 1;
    }
    proof {
        assert(rows_view(rows@).take(i as int) =~= rows_view(rows@));
    }
    r
}

#[derive(Debug, PartialEq)]
pub struct KVData {
    key: String,
    value: String,
}

impl View for KVData {
    type V = KVDataView;

    closed spec fn view(&self) -> KVDataView {
        KVDataView { key: self.key@, value: self.value@ }
    }
}

impl Clone for KVData {
    fn clone(&self) -> (r: Self)
        ensures
            r@ == self@,
    {
        KVData { key: self.key.clone(), value: self.value.clone() }
    }
}

impl Default for KVData {
    fn default() -> (r: Self)
        ensures
            r@ == KVDataView::empty(),
    {
        KVData { key: String::new(), value: String::new() }
    }
}

impl KVData {
    /// The empty row.
    pub fn default_const() -> (r: Self)
        ensures
            r@ == KVDataView::empty(),
    {
        KVData { key: String::new(), value: String::new() }
    }

    pub fn new(key: String, value: String) -> (r: Self)
        ensures
            r@ == (KVDataView { key: key@, value: value@ }),
    {
        KVData { key, value }
    }

    pub fn from_string(input: String) -> (r: Self)
        ensures
            r@ == KVDataView::parse(input@),
    {
        Self::from_str(input.as_str())
    }

    /// Reads a row written as `key=value`.
    pub fn from_str(input: &str) -> (r: Self)
        ensures
            r@ == KVDataView::parse(input@),
    {
        let mut tokens = split_chars(input, '=', '=');
        let value = if tokens.len() == 2 {
            tokens.remove(1)
        } else {
            String::new()
        };
        let key = tokens.remove(0);
        KVData { key, value }
    }

    pub fn to_string(&self) -> (s: String)
        ensures
            s@ == self@.text(),
    {
        if !self.key.as_str().is_empty() && !self.value.as_str().is_empty() {
            let mut s = self.key.clone();
            push_char(&mut s, '=');
            s.append(self.value.as_str());
            return s;
        }
        if !self.key.as_str().is_empty() {
            return self.key.clone();
        }
        String::new()
    }

    pub fn key(&self) -> (k: String)
        ensures
            k@ == self@.key,
    {
        self.key.clone()
    }

    pub fn set_key(&mut self, key: String)
        ensures
            final(self)@ == (KVDataView { key: key@, ..old(self)@ }),
    {
        self.key = key;
    }

    pub fn value(&self) -> (v: String)
        ensures
            v@ == self@.value,
    {
        self.value.clone()
    }

    pub fn set_value(&mut self, value: String)
        ensures
            final(self)@ == (KVDataView { value: value@, ..old(self)@ }),
    {
        self.value = value;
    }
}

} // verus!
