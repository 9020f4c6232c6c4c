//! What is sent with a request and what is shown of its response, as far as
//! it can be decided without sending anything.

use vstd::prelude::*;
use crate::app_status::AppStatus;
use crate::body::BodyContent;
use crate::chars::{split_on, starts_with};
use crate::kv_data::{rows_view, KVData, KVDataView};
use crate::response::ResponseView;
use crate::state::{Method, UiState, UiStateView};

verus! {

/// What `jsonxf::pretty_print` makes of the text `json`: the text laid out
/// with one member per line and two spaces of indent, or the words of an
/// error.
pub uninterp spec fn pretty_printed(json: Seq<char>) -> Result<Seq<char>, Seq<char>>;

/// The characters of either outcome.
pub open spec fn result_view(r: Result<String, String>) -> Result<Seq<char>, Seq<char>> {
    match r {
        Ok(s) => Ok(s@),
        Err(e) => Err(e@),
    }
}

/// Calls `jsonxf::pretty_print`, which lays JSON text out anew without
/// checking it. Its outcome depends on the text alone and goes by the name
/// [`pretty_printed`]; nothing more is claimed of it.
#[verifier::external_body]
fn pretty_print_json(json: &str) -> (r: Result<String, String>)
    ensures
        result_view(r) == pretty_printed(json@),
{
    jsonxf::pretty_print(json)
}

/// The text shown for a response: for JSON what the pretty printer gave,
/// be it the laid-out text or the words of its error; else the text as it
/// came.
pub open spec fn shown_text(
    is_json: bool,
    text: Seq<char>,
    printed: Result<Seq<char>, Seq<char>>,
) -> Seq<char> {
    if is_json {
        match printed {
            Ok(pretty) => pretty,
            Err(words) => words,
        }
    } else {
        text
    }
}

/// Whether a content type announces JSON.
pub open spec fn announces_json(content_type: Seq<char>) -> bool {
    "application/json"@.len() <= content_type.len() && content_type.take(
        "application/json"@.len() as int,
    ) == "application/json"@
}

/// Whether the content type `content_type` announces JSON.
pub fn is_json_content(content_type: &str) -> (b: bool)
    ensures
        b == announces_json(content_type@),
{
    starts_with(content_type, "application/json")
}

/// Chooses the text to show, given what the pretty printer made of `text`.
pub fn response_text(is_json: bool, text: String, printed: Result<String, String>) -> (shown: String)
    ensures
        shown@ == shown_text(is_json, text@, result_view(printed)),
{
    if is_json {
        match printed {
            Ok(pretty) => pretty,
            Err(words) => words,
        }
    } else {
        text
    }
}

/// The text to show for a response: JSON is laid out anew.
pub fn format_response(is_json: bool, text: String) -> (shown: String)
    ensures
        shown@ == shown_text(is_json, text@, pretty_printed(text@)),
{
    if is_json {
        let printed = pretty_print_json(text.as_str());
        response_text(true, text, printed)
    } else {
        text
    }
}

/// The state after a response arrived. With its text, the response area
/// shows the lines of that text and the status is `DONE`; without, the
/// status is `ERROR`.
pub open spec fn with_response(
    state: UiStateView,
    content_type: Option<Seq<char>>,
    text: Option<Seq<char>>,
) -> UiStateView {
    match text {
        Some(text) => {
            let is_json = match content_type {
                Some(content_type) => announces_json(content_type),
                None => false,
            };
            UiStateView {
                response: ResponseView {
                    response: split_on(
                        shown_text(is_json, text, pretty_printed(text)),
                        '\n',
                        '\n',
                    ),
                    initialized: true,
                    ..state.response
                },
                app_status: AppStatus::DONE,
                ..state
            }
        },
        None => UiStateView { app_status: AppStatus::ERROR, ..state },
    }
}

/// The characters of an optional string slice.
pub open spec fn option_str_view(s: Option<&str>) -> Option<Seq<char>> {
    match s {
        Some(s) => Some(s@),
        None => None,
    }
}

/// Takes in a response: its content type, if it named one, and its text,
/// if that could be read.
pub fn process_response(uistate: &mut UiState, content_type: Option<&str>, text: Option<String>)
    ensures
        final(uistate)@ == with_response(
            old(uistate)@,
            option_str_view(content_type),
            crate::state::option_view(text),
        ),
{
    match text {
        Some(text) => {
            let is_json = match content_type {
                Some(content_type) => is_json_content(content_type),
                None => false,
            };
            let shown = format_response(is_json, text);
            let response = uistate.response_mut();
            response.from_str(shown);
            uistate.set_app_status(AppStatus::DONE);
        },
        None => {
            uistate.set_app_status(AppStatus::ERROR);
        },
    }
}

/// The content type that goes with a kind of body.
pub open spec fn content_type_of(body: BodyContent) -> Option<Seq<char>> {
    match body {
        BodyContent::NONE => None,
        BodyContent::FormData => Some("multipart/form-data"@),
        BodyContent::FormURLEncoded => Some("application/x-www-form-urlencoded"@),
        BodyContent::Text => Some("text/plain"@),
        BodyContent::Json => Some("application/json"@),
        BodyContent::Html => Some("text/html"@),
        BodyContent::Xml => Some("application/xml"@),
    }
}

/// The content type that goes with a kind of body.
pub fn body_content_type(body: BodyContent) -> (content_type: Option<&'static str>)
    ensures
        option_str_view(content_type) == content_type_of(body),
{
    match body {
        BodyContent::NONE => None,
        BodyContent::FormData => Some("multipart/form-data"),
        BodyContent::FormURLEncoded => Some("application/x-www-form-urlencoded"),
        BodyContent::Text => Some("text/plain"),
        BodyContent::Json => Some("application/json"),
        BodyContent::Html => Some("text/html"),
        BodyContent::Xml => Some("application/xml"),
    }
}

/// The rows that have both a key and a value, in order.
pub open spec fn filled_rows(rows: Seq<KVDataView>) -> Seq<KVDataView>
    decreases rows.len(),
{
    if rows.len() == 0 {
        Seq::empty()
    } else if rows.last().key.len() > 0 && rows.last().value.len() > 0 {
        filled_rows(rows.drop_last()).push(rows.last())
    } else {
        filled_rows(rows.drop_last())
    }
}

/// The headers that go out with a request: those that the user filled in,
/// and after them, for any method but `GET`, the content type of the body
/// where it has one. A header that comes later replaces an earlier one of the
/// same name.
pub open spec fn headers_to_send(headers: Seq<KVDataView>, method: Method, body: BodyContent) -> Seq<
    KVDataView,
> {
    match content_type_of(body) {
        Some(content_type) if method != Method::GET => filled_rows(headers).push(
            KVDataView { key: "content-type"@, value: content_type },
        ),
        _ => filled_rows(headers),
    }
}

/// The headers that go out with a request.
pub fn request_headers_to_send(headers: &Vec<KVData>, method: Method, body: BodyContent) -> (sent:
    Vec<KVData>)
    ensures
        rows_view(sent@) == headers_to_send(rows_view(headers@), method, body),
{
    let mut sent: Vec<KVData> = Vec::new();
    let mut i: usize = 0;
    proof {
        assert(rows_view(headers@).take(0) =~= Seq::empty());
        assert(rows_view(sent@) =~= Seq::empty());
    }
    while i < headers.len()
        invariant
            i <= headers@.len(),
            rows_view(sent@) == filled_rows(rows_view(headers@).take(i as int)),
        decreases headers@.len() - i,
    {
        proof {
            assert(rows_view(headers@).take(i + 1).drop_last() =~= rows_view(headers@).take(
                i as int,
            ));
            assert(rows_view(headers@).take(i + 1).last() == headers@[i as int]@);
        }
        let header = &headers[i];
        if !header.key().as_str().is_empty() && !header.value().as_str().is_empty() {
            let copy = header.clone();
            proof {
                assert(rows_view(sent@.push(copy)) =~= rows_view(sent@).push(copy@));
            }
            sent.push(copy);
        }
        i = i + 1;
    }
    proof {
        assert(rows_view(headers@).take(i as int) =~= rows_view(headers@));
    }
    match body_content_type(body) {
        Some(content_type) => {
            if method != Method::GET {
                let row = KVData::new(
                    String::from_str("content-type"),
                    String::from_str(content_type),
                );
                proof {
                    assert(rows_view(sent@.push(row)) =~= rows_view(sent@).push(row@));
                }
                sent.push(row);
            }
        },
        None => {},
    }
    sent
}

} // verus!
