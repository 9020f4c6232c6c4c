//! The text shown in the response area.

use vstd::prelude::*;
use crate::chars::{copy_strings, split_chars, split_on, strings_view};

verus! {

pub struct ResponseView {
    pub cache_req_counter: int,
    pub response: Seq<Seq<char>>,
    pub initialized: bool,
    pub scroll_pos: int,
}

impl ResponseView {
    /// No response yet.
    pub open spec fn initial() -> Self {
        ResponseView {
            cache_req_counter: 0,
            response: Seq::empty(),
            initialized: false,
            scroll_pos: 0,
        }
    }
}

#[derive(Debug)]
pub struct Response {
    /// The request counter at the time the lines were last wrapped.
    cache_req_counter: u8,
    response: Vec<String>,
    initialized: bool,
    scroll_pos: u16,
}

impl View for Response {
    type V = ResponseView;

    closed spec fn view(&self) -> ResponseView {
        ResponseView {
            cache_req_counter: self.cache_req_counter as int,
            response: strings_view(self.response@),
            initialized: self.initialized,
            scroll_pos: self.scroll_pos as int,
        }
    }
}

impl Clone for Response {
    fn clone(&self) -> (r: Self)
        ensures
            r@ == self@,
    {
        Response {
            cache_req_counter: self.cache_req_counter,
            response: copy_strings(&self.response),
            initialized: self.initialized,
            scroll_pos: self.scroll_pos,
        }
    }
}

impl Default for Response {
    fn default() -> (r: Self)
        ensures
            r@ == ResponseView::initial(),
    {
        let r = Response {
            cache_req_counter: 0,
            response: Vec::new(),
            initialized: false,
            scroll_pos: 0,
        };
        proof {
            assert(strings_view(r.response@) =~= Seq::empty());
        }
        r
    }
}

impl Response {
    pub fn cache_req_counter(&self) -> (c: u8)
        ensures
            c == self@.cache_req_counter,
    {
        self.cache_req_counter
    }

    pub fn set_cache_req_counter(&mut self, cache_req_counter: u8)
        ensures
            final(self)@ == (ResponseView {
                cache_req_counter: cache_req_counter as int,
                ..old(self)@
            }),
    {
        self.cache_req_counter = cache_req_counter;
    }

    /// The lines of the response.
    pub fn response(&self) -> (lines: &Vec<String>)
        ensures
            strings_view(lines@) == self@.response,
    {
        &self.response
    }

    /// Sets the lines of the response and marks it as present.
    pub fn set_response(&mut self, response: Vec<String>)
        ensures
            final(self)@ == (ResponseView {
                response: strings_view(response@),
                initialized: true,
                ..old(self)@
            }),
    {
        self.response = response;
        self.initialized = true;
    }

    /// Sets the response to the lines of `resp_text`, cut at its line feeds,
    /// and marks it as present.
    pub fn from_str(&mut self, resp_text: String)
        ensures
            final(self)@ == (ResponseView {
                response: split_on(resp_text@, '\n', '\n'),
                initialized: true,
                ..old(self)@
            }),
    {
        self.response = split_chars(resp_text.as_str(), '\n', '\n');
        self.initialized = true;
    }

    /// Whether a response has been set.
    pub fn initialized(&self) -> (b: bool)
        ensures
            b == self@.initialized,
    {
        self.initialized
    }

    pub fn scroll_pos(&self) -> (pos: u16)
        ensures
            pos == self@.scroll_pos,
    {
        self.scroll_pos
    }

    pub fn set_scroll_pos(&mut self, pos: u16)
        ensures
            final(self)@ == (ResponseView { scroll_pos: pos as int, ..old(self)@ }),
    {
        self.scroll_pos = pos;
    }
}

} // verus!
