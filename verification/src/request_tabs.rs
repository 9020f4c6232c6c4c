//! The tabs of the request pane.

use vstd::prelude::*;

verus! {

#[derive(Clone, Copy, Debug, PartialEq, Eq, Structural)]
pub enum RequestTabs {
    UrlParams,
    Authorization,
    Headers,
    Body,
}

impl Default for RequestTabs {
    fn default() -> (t: Self)
        ensures
            t == RequestTabs::UrlParams,
    {
        RequestTabs::UrlParams
    }
}

impl RequestTabs {
    /// The tab's place among the tabs, from the left, starting at zero.
    pub open spec fn index(self) -> int {
        match self {
            RequestTabs::UrlParams => 0,
            RequestTabs::Authorization => 1,
            RequestTabs::Headers => 2,
            RequestTabs::Body => 3,
        }
    }

    /// The tab's title.
    pub open spec fn label(self) -> Seq<char> {
        match self {
            RequestTabs::UrlParams => "URL Params"@,
            RequestTabs::Authorization => "Authorization"@,
            RequestTabs::Headers => "Headers"@,
            RequestTabs::Body => "Body"@,
        }
    }

    /// The tab at place `val`; the first tab for a number that is no place.
    pub open spec fn at(val: int) -> Self {
        if val == 1 {
            RequestTabs::Authorization
        } else if val == 2 {
            RequestTabs::Headers
        } else if val == 3 {
            RequestTabs::Body
        } else {
            RequestTabs::UrlParams
        }
    }

    pub fn get_str_label(self) -> (s: String)
        ensures
            s@ == self.label(),
    {
        match self {
            RequestTabs::UrlParams => String::from_str("URL Params"),
            RequestTabs::Authorization => String::from_str("Authorization"),
            RequestTabs::Headers => String::from_str("Headers"),
            RequestTabs::Body => String::from_str("Body"),
        }
    }

    pub fn get_val(&self) -> (val: u8)
        ensures
            val == self.index(),
    {
        match self {
            RequestTabs::UrlParams => 0,
            RequestTabs::Authorization => 1,
            RequestTabs::Headers => 2,
            RequestTabs::Body => 3,
        }
    }

    pub fn from_val(val: u8) -> (t: Self)
        ensures
            t == Self::at(val as int),
    {
        match val {
            0 => RequestTabs::UrlParams,
            1 => RequestTabs::Authorization,
            2 => RequestTabs::Headers,
            3 => RequestTabs::Body,
            _ => RequestTabs::UrlParams,
        }
    }

    /// All tabs, from the left.
    pub fn iter() -> (tabs: Vec<RequestTabs>)
        ensures
            tabs@ == seq![
                RequestTabs::UrlParams,
                RequestTabs::Authorization,
                RequestTabs::Headers,
                RequestTabs::Body,
            ],
    {
        vec![
            RequestTabs::UrlParams,
            RequestTabs::Authorization,
            RequestTabs::Headers,
            RequestTabs::Body,
        ]
    }
}

/// A tab's place leads back to the tab.
pub proof fn lemma_tab_index_round_trip(t: RequestTabs)
    ensures
        RequestTabs::at(t.index()) == t,
{
}

} // verus!
