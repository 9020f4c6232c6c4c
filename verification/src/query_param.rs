//! One query parameter of a URL.

use vstd::prelude::*;
use crate::chars::{push_char, split_chars};
use crate::kv_data::KVDataView;

verus! {

#[derive(Debug, PartialEq)]
pub struct QueryParam {
    name: String,
    value: String,
}

impl View for QueryParam {
    type V = KVDataView;

    /// A parameter is a key-value row whose key is its name.
    closed spec fn view(&self) -> KVDataView {
        KVDataView { key: self.name@, value: self.value@ }
    }
}

impl Clone for QueryParam {
    fn clone(&self) -> (r: Self)
        ensures
            r@ == self@,
    {
        QueryParam { name: self.name.clone(), value: self.value.clone() }
    }
}

impl Default for QueryParam {
    fn default() -> (r: Self)
        ensures
            r@ == KVDataView::empty(),
    {
        QueryParam { name: String::new(), value: String::new() }
    }
}

impl QueryParam {
    pub fn new(name: String, value: String) -> (r: Self)
        ensures
            r@ == (KVDataView { key: name@, value: value@ }),
    {
        QueryParam { name, value }
    }

    pub fn from_string(input: String) -> (r: Self)
        ensures
            r@ == KVDataView::parse(input@),
    {
        Self::from_str(input.as_str())
    }

    /// Reads a parameter written as `name=value`.
    pub fn from_str(input: &str) -> (r: Self)
        ensures
            r@ == KVDataView::parse(input@),
    {
        let mut tokens = split_chars(input, '=', '=');
        let value = if tokens.len() == 2 {
            tokens.remove(1)
        } else {
            String::new()
        };
        let name = tokens.remove(0);
        QueryParam { name, value }
    }

    pub fn to_string(&self) -> (s: String)
        ensures
            s@ == self@.text(),
    {
        if !self.name.as_str().is_empty() && !self.value.as_str().is_empty() {
            let mut s = self.name.clone();
            push_char(&mut s, '=');
            s.append(self.value.as_str());
            return s;
        }
        if !self.name.as_str().is_empty() {
            return self.name.clone();
        }
        String::new()
    }

    pub fn name(&self) -> (n: String)
        ensures
            n@ == self@.key,
    {
        self.name.clone()
    }

    pub fn set_name(&mut self, name: String)
        ensures
            final(self)@ == (KVDataView { key: name@, ..old(self)@ }),
    {
        self.name = name;
    }

    pub fn value(&self) -> (v: String)
        ensures
            v@ == self@.value,
    {
        self.value.clone()
    }

    pub fn set_value(&mut self, value: String)
        ensures
            final(self)@ == (KVDataView { value: value@, ..old(self)@ }),
    {
        self.value = value;
    }
}

} // verus!
