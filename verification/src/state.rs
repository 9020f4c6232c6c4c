//! The state of the whole application: the request being composed, the
//! response received, and the widget that has the focus.

use vstd::prelude::*;
use crate::app_status::AppStatus;
use crate::body::{Body, BodyView};
use crate::chars::push_char;
use crate::kv_data::{copy_rows, rows_view, KVData, KVDataView};
use crate::kv_tab::{
    handle_kv_tab_key, insert_row, kv_tab_changes, remove_row, rows_after_key, rows_insert,
    rows_remove, state_after_key, without_last, KVTabKey,
};
use crate::url_params::PARAM_LIMIT;
use crate::kv_tab_state::{KVTabState, KVTabStateView};
use crate::request_tabs::RequestTabs;
use crate::response::{Response, ResponseView};
use crate::url::{Url, UrlView};

verus! {

/// The widgets on the screen, in the order in which the tab key visits
/// them.
#[derive(Clone, Copy, Debug, PartialEq, Eq, Structural)]
pub enum UIElement {
    Method,
    URL,
    SendButton,
    RequestTabsHead,
    RequestTabsElem,
    ResponseArea,
}

impl Default for UIElement {
    fn default() -> (e: Self)
        ensures
            e == UIElement::URL,
    {
        UIElement::URL
    }
}

impl UIElement {
    /// The widget's place in the order of the tab key, starting at zero.
    pub open spec fn index(self) -> int {
        match self {
            UIElement::Method => 0,
            UIElement::URL => 1,
            UIElement::SendButton => 2,
            UIElement::RequestTabsHead => 3,
            UIElement::RequestTabsElem => 4,
            UIElement::ResponseArea => 5,
        }
    }

    /// The widget at place `val`; the last widget for a number that is no
    /// place.
    pub open spec fn at(val: int) -> Self {
        if val == 0 {
            UIElement::Method
        } else if val == 1 {
            UIElement::URL
        } else if val == 2 {
            UIElement::SendButton
        } else if val == 3 {
            UIElement::RequestTabsHead
        } else if val == 4 {
            UIElement::RequestTabsElem
        } else {
            UIElement::ResponseArea
        }
    }

    pub fn get_val(&self) -> (val: u8)
        ensures
            val == self.index(),
    {
        match self {
            UIElement::Method => 0,
            UIElement::URL => 1,
            UIElement::SendButton => 2,
            UIElement::RequestTabsHead => 3,
            UIElement::RequestTabsElem => 4,
            UIElement::ResponseArea => 5,
        }
    }

    pub fn from_val(val: u8) -> (e: Self)
        ensures
            e == Self::at(val as int),
    {
        match val {
            0 => UIElement::Method,
            1 => UIElement::URL,
            2 => UIElement::SendButton,
            3 => UIElement::RequestTabsHead,
            4 => UIElement::RequestTabsElem,
            _ => UIElement::ResponseArea,
        }
    }
}

/// How the keyboard drives the application. Only `Normal` is in use: tab and
/// the arrows move around, and a field with the focus is edited directly.
#[derive(Clone, Copy, Debug, PartialEq, Eq, Structural)]
pub enum EditorMode {
    Normal,
    VIM,
}

impl Default for EditorMode {
    fn default() -> (m: Self)
        ensures
            m == EditorMode::Normal,
    {
        EditorMode::Normal
    }
}

#[derive(Clone, Copy, Debug, PartialEq, Eq, Structural)]
pub enum InputMode {
    Normal,
    INSERT,
    VISUAL,
}

impl Default for InputMode {
    fn default() -> (m: Self)
        ensures
            m == InputMode::Normal,
    {
        InputMode::Normal
    }
}

/// The method of the request.
#[derive(Clone, Copy, Debug, PartialEq, Eq, Structural)]
pub enum Method {
    GET,
    POST,
    PUT,
    DELETE,
    HEAD,
    OPTIONS,
    CONNECT,
    PATCH,
    TRACE,
}

impl Default for Method {
    fn default() -> (m: Self)
        ensures
            m == Method::GET,
    {
        Method::GET
    }
}

impl Method {
    /// The method with number `val` in the list of methods; `GET` for a
    /// number that the list does not reach.
    pub open spec fn at(val: int) -> Self {
        if val == 1 {
            Method::POST
        } else if val == 2 {
            Method::PUT
        } else if val == 3 {
            Method::DELETE
        } else if val == 4 {
            Method::HEAD
        } else if val == 5 {
            Method::OPTIONS
        } else if val == 6 {
            Method::CONNECT
        } else if val == 7 {
            Method::PATCH
        } else if val == 8 {
            Method::TRACE
        } else {
            Method::GET
        }
    }

    /// The method that the letter `c` chooses, in either case: the initial
    /// of the method, but `U` for `PUT` and `A` for `PATCH`. `GET` for any
    /// other character.
    pub open spec fn for_char(c: char) -> Self {
        if c == 'P' || c == 'p' {
            Method::POST
        } else if c == 'U' || c == 'u' {
            Method::PUT
        } else if c == 'D' || c == 'd' {
            Method::DELETE
        } else if c == 'H' || c == 'h' {
            Method::HEAD
        } else if c == 'O' || c == 'o' {
            Method::OPTIONS
        } else if c == 'C' || c == 'c' {
            Method::CONNECT
        } else if c == 'A' || c == 'a' {
            Method::PATCH
        } else if c == 'T' || c == 't' {
            Method::TRACE
        } else {
            Method::GET
        }
    }

    /// The method's name.
    pub open spec fn name(self) -> Seq<char> {
        match self {
            Method::GET => "GET"@,
            Method::POST => "POST"@,
            Method::PUT => "PUT"@,
            Method::DELETE => "DELETE"@,
            Method::HEAD => "HEAD"@,
            Method::OPTIONS => "OPTIONS"@,
            Method::CONNECT => "CONNECT"@,
            Method::PATCH => "PATCH"@,
            Method::TRACE => "TRACE"@,
        }
    }

    pub fn as_str(&self) -> (s: &'static str)
        ensures
            s@ == self.name(),
    {
        match self {
            Method::GET => "GET",
            Method::POST => "POST",
            Method::PUT => "PUT",
            Method::DELETE => "DELETE",
            Method::HEAD => "HEAD",
            Method::OPTIONS => "OPTIONS",
            Method::CONNECT => "CONNECT",
            Method::PATCH => "PATCH",
            Method::TRACE => "TRACE",
        }
    }

    pub fn from_val(val: u8) -> (m: Self)
        ensures
            m == Self::at(val as int),
    {
        match val {
            1 => Method::POST,
            2 => Method::PUT,
            3 => Method::DELETE,
            4 => Method::HEAD,
            5 => Method::OPTIONS,
            6 => Method::CONNECT,
            7 => Method::PATCH,
            8 => Method::TRACE,
            _ => Method::GET,
        }
    }

    pub fn from_char(c: char) -> (m: Self)
        ensures
            m == Self::for_char(c),
    {
        if c == 'P' || c == 'p' {
            Method::POST
        } else if c == 'U' || c == 'u' {
            Method::PUT
        } else if c == 'D' || c == 'd' {
            Method::DELETE
        } else if c == 'H' || c == 'h' {
            Method::HEAD
        } else if c == 'O' || c == 'o' {
            Method::OPTIONS
        } else if c == 'C' || c == 'c' {
            Method::CONNECT
        } else if c == 'A' || c == 'a' {
            Method::PATCH
        } else if c == 'T' || c == 't' {
            Method::TRACE
        } else {
            Method::GET
        }
    }
}

/// The application's state as plain values.
pub struct UiStateView {
    pub url: Seq<char>,
    pub url_deconst: UrlView,
    pub body: BodyView,
    pub editor_mode: EditorMode,
    pub method: Method,
    pub active_request_tab: RequestTabs,
    pub request_counter: int,
    pub request_headers: Seq<KVDataView>,
    pub request_headers_ui: KVTabStateView,
    pub response: ResponseView,
    pub response_status_code: Option<u16>,
    pub active_element: UIElement,
    pub input_mode: InputMode,
    pub query_params_ui: KVTabStateView,
    pub app_status: AppStatus,
    pub app_error: Option<Seq<char>>,
}

impl UiStateView {
    /// The state at start: nothing typed, a `GET` request with one empty
    /// header, the URL bar has the focus.
    pub open spec fn initial() -> Self {
        UiStateView {
            url: Seq::empty(),
            url_deconst: UrlView::initial(),
            body: BodyView::initial(),
            editor_mode: EditorMode::Normal,
            method: Method::GET,
            active_request_tab: RequestTabs::UrlParams,
            request_counter: 0,
            request_headers: seq![KVDataView::empty()],
            request_headers_ui: KVTabStateView::initial(),
            response: ResponseView::initial(),
            response_status_code: None,
            active_element: UIElement::URL,
            input_mode: InputMode::Normal,
            query_params_ui: KVTabStateView::initial(),
            app_status: AppStatus::STARTUP,
            app_error: None,
        }
    }
}

pub struct UiState {
    /// The URL as the user typed it.
    url: String,
    /// The URL taken apart.
    url_deconst: Url,
    /// The state of the body tab.
    body: Body,
    editor_mode: EditorMode,
    method: Method,
    active_request_tab: RequestTabs,
    /// Counts the requests made; the response area wraps its lines anew
    /// when it changes.
    request_counter: u8,
    request_headers: Vec<KVData>,
    request_headers_ui: KVTabState,
    response: Response,
    /// Status code of the last response; `None` before the first request.
    response_status_code: Option<u16>,
    active_element: UIElement,
    input_mode: InputMode,
    query_params_ui: KVTabState,
    app_status: AppStatus,
    app_error: Option<String>,
}

/// The characters of an optional string.
pub open spec fn option_view(s: Option<String>) -> Option<Seq<char>> {
    match s {
        Some(s) => Some(s@),
        None => None,
    }
}

impl View for UiState {
    type V = UiStateView;

    closed spec fn view(&self) -> UiStateView {
        UiStateView {
            url: self.url@,
            url_deconst: self.url_deconst@,
            body: self.body@,
            editor_mode: self.editor_mode,
            method: self.method,
            active_request_tab: self.active_request_tab,
            request_counter: self.request_counter as int,
            request_headers: rows_view(self.request_headers@),
            request_headers_ui: self.request_headers_ui@,
            response: self.response@,
            response_status_code: self.response_status_code,
            active_element: self.active_element,
            input_mode: self.input_mode,
            query_params_ui: self.query_params_ui@,
            app_status: self.app_status,
            app_error: option_view(self.app_error),
        }
    }
}

impl Clone for UiState {
    fn clone(&self) -> (s: Self)
        ensures
            s@ == self@,
    {
        UiState {
            url: self.url.clone(),
            url_deconst: self.url_deconst.clone(),
            body: self.body.clone(),
            editor_mode: self.editor_mode,
            method: self.method,
            active_request_tab: self.active_request_tab,
            request_counter: self.request_counter,
            request_headers: copy_rows(&self.request_headers),
            request_headers_ui: self.request_headers_ui,
            response: self.response.clone(),
            response_status_code: self.response_status_code,
            active_element: self.active_element,
            input_mode: self.input_mode,
            query_params_ui: self.query_params_ui,
            app_status: self.app_status,
            app_error: match &self.app_error {
                Some(e) => Some(e.clone()),
                None => None,
            },
        }
    }
}

impl Default for UiState {
    fn default() -> (s: Self)
        ensures
            s@ == UiStateView::initial(),
            s.wf(),
    {
        let mut request_headers: Vec<KVData> = Vec::new();
        request_headers.push(KVData::default());
        proof {
            assert(rows_view(request_headers@) =~= seq![KVDataView::empty()]);
        }
        UiState {
            url: String::new(),
            url_deconst: Url::default(),
            body: Body::default(),
            editor_mode: EditorMode::default(),
            method: Method::default(),
            active_request_tab: RequestTabs::default(),
            request_counter: 0,
            request_headers,
            request_headers_ui: KVTabState::default(),
            response: Response::default(),
            response_status_code: None,
            active_element: UIElement::default(),
            input_mode: InputMode::default(),
            query_params_ui: KVTabState::default(),
            app_status: AppStatus::default(),
            app_error: None,
        }
    }
}

impl UiState {
    /// The text editor of the body satisfies its invariant.
    pub open spec fn wf(&self) -> bool {
        self@.body.text_data.wf()
    }

    /// Checks the invariant.
    pub fn is_wf(&self) -> (b: bool)
        ensures
            b == self.wf(),
    {
        self.body.text_data().is_wf()
    }

    /// Whether the keyboard drives the application directly.
    pub fn takes_keys(&self) -> (b: bool)
        ensures
            b == (self@.editor_mode == EditorMode::Normal || self@.input_mode
                == InputMode::Normal),
    {
        self.editor_mode == EditorMode::Normal || self.input_mode == InputMode::Normal
    }

    /// Handles a key press on the table of query parameters. Where the
    /// parameters change, the URL is written out anew from its parts.
    pub fn handle_query_params_key(&mut self, key: KVTabKey, ctrl_down: bool)
        ensures
            final(self)@ == ({
                let s = old(self)@;
                let url_deconst = UrlView {
                    query_params: rows_after_key(
                        s.url_deconst.query_params,
                        s.query_params_ui,
                        key,
                        ctrl_down,
                        PARAM_LIMIT as int,
                    ),
                    ..s.url_deconst
                };
                UiStateView {
                    url_deconst,
                    query_params_ui: state_after_key(
                        s.url_deconst.query_params,
                        s.query_params_ui,
                        key,
                        ctrl_down,
                    ),
                    url: if kv_tab_changes(
                        key,
                        s.query_params_ui.active_row as u16,
                        s.query_params_ui.active_col as u8,
                    ) {
                        url_deconst.text()
                    } else {
                        s.url
                    },
                    ..s
                }
            }),
    {
        let changed = handle_kv_tab_key(
            self.url_deconst.query_params_mut(),
            &mut self.query_params_ui,
            key,
            ctrl_down,
            PARAM_LIMIT,
        );
        if changed {
            self.url = self.url_deconst.to_string();
        }
    }

    /// Handles a key press on the table of headers.
    pub fn handle_headers_key(&mut self, key: KVTabKey, ctrl_down: bool)
        ensures
            final(self)@ == (UiStateView {
                request_headers: rows_after_key(
                    old(self)@.request_headers,
                    old(self)@.request_headers_ui,
                    key,
                    ctrl_down,
                    usize::MAX as int,
                ),
                request_headers_ui: state_after_key(
                    old(self)@.request_headers,
                    old(self)@.request_headers_ui,
                    key,
                    ctrl_down,
                ),
                ..old(self)@
            }),
    {
        handle_kv_tab_key(
            &mut self.request_headers,
            &mut self.request_headers_ui,
            key,
            ctrl_down,
            usize::MAX,
        );
    }

    /// Wraps the lines of the response to `width` characters, once for each
    /// request: nothing happens while the response area has seen the current
    /// request counter.
    pub fn wrap_response(&mut self, width: usize)
        requires
            width > 0,
        ensures
            final(self)@ == (if old(self)@.request_counter == old(self)@.response.cache_req_counter {
                old(self)@
            } else {
                UiStateView {
                    response: ResponseView {
                        response: crate::utils::wrapped(old(self)@.response.response, width as int),
                        initialized: true,
                        cache_req_counter: old(self)@.request_counter,
                        ..old(self)@.response
                    },
                    ..old(self)@
                }
            }),
    {
        if self.request_counter != self.response.cache_req_counter() {
            let lines = crate::utils::wrap_lines(self.response.response(), width);
            self.response.set_response(lines);
            self.response.set_cache_req_counter(self.request_counter);
        }
    }

    /// The URL as typed.
    pub fn url(&self) -> (u: String)
        ensures
            u@ == self@.url,
    {
        self.url.clone()
    }

    pub fn set_url(&mut self, url: String)
        ensures
            final(self)@ == (UiStateView { url: url@, ..old(self)@ }),
    {
        self.url = url;
    }

    /// Appends `chr` to the URL.
    pub fn append_url(&mut self, chr: char)
        ensures
            final(self)@ == (UiStateView { url: old(self)@.url.push(chr), ..old(self)@ }),
    {
        push_char(&mut self.url, chr);
    }

    /// Appends `url_string` to the URL.
    pub fn append_url_string(&mut self, url_string: String)
        ensures
            final(self)@ == (UiStateView { url: old(self)@.url + url_string@, ..old(self)@ }),
    {
        self.url.append(url_string.as_str());
    }

    /// Removes the last character of the URL, if there is one.
    pub fn pop_url(&mut self)
        ensures
            final(self)@ == (UiStateView { url: without_last(old(self)@.url), ..old(self)@ }),
    {
        let n = crate::chars::char_count(&self.url);
        if n > 0 {
            self.url = crate::chars::slice_chars(&self.url, 0, n - 1);
            proof {
                assert(self.url@ =~= old(self)@.url.drop_last());
            }
        }
    }

    pub fn url_deconst(&self) -> (u: &Url)
        ensures
            u@ == self@.url_deconst,
    {
        &self.url_deconst
    }

    pub fn url_deconst_mut(&mut self) -> (u: &mut Url)
        ensures
            u@ == old(self)@.url_deconst,
            final(self)@ == (UiStateView { url_deconst: final(u)@, ..old(self)@ }),
    {
        &mut self.url_deconst
    }

    pub fn body(&self) -> (b: &Body)
        ensures
            b@ == self@.body,
    {
        &self.body
    }

    pub fn body_mut(&mut self) -> (b: &mut Body)
        ensures
            b@ == old(self)@.body,
            final(self)@ == (UiStateView { body: final(b)@, ..old(self)@ }),
    {
        &mut self.body
    }

    pub fn method(&self) -> (m: Method)
        ensures
            m == self@.method,
    {
        self.method
    }

    pub fn set_method(&mut self, method: Method)
        ensures
            final(self)@ == (UiStateView { method, ..old(self)@ }),
    {
        self.method = method;
    }

    /// Chooses the method by its number in the list of methods.
    pub fn set_method_from_val(&mut self, val: u8)
        ensures
            final(self)@ == (UiStateView { method: Method::at(val as int), ..old(self)@ }),
    {
        self.set_method(Method::from_val(val));
    }

    /// Chooses the method by a letter.
    pub fn set_method_from_char(&mut self, c: char)
        ensures
            final(self)@ == (UiStateView { method: Method::for_char(c), ..old(self)@ }),
    {
        self.set_method(Method::from_char(c));
    }

    pub fn editor_mode(self) -> (m: EditorMode)
        ensures
            m == self@.editor_mode,
    {
        self.editor_mode
    }

    pub fn set_editor_mode(&mut self, editor_mode: EditorMode)
        ensures
            final(self)@ == (UiStateView { editor_mode, ..old(self)@ }),
    {
        self.editor_mode = editor_mode;
    }

    pub fn input_mode(&self) -> (m: InputMode)
        ensures
            m == self@.input_mode,
    {
        self.input_mode
    }

    pub fn set_input_mode(&mut self, input_mode: InputMode)
        ensures
            final(self)@ == (UiStateView { input_mode, ..old(self)@ }),
    {
        self.input_mode = input_mode;
    }

    pub fn active_element(&self) -> (e: &UIElement)
        ensures
            *e == self@.active_element,
    {
        &self.active_element
    }

    pub fn set_active_element(&mut self, act_elem: UIElement)
        ensures
            final(self)@ == (UiStateView { active_element: act_elem, ..old(self)@ }),
    {
        self.active_element = act_elem;
    }

    /// Gives the focus to the next widget; the last widget keeps it.
    pub fn activate_next_element(&mut self)
        ensures
            final(self)@ == (UiStateView {
                active_element: UIElement::at(old(self)@.active_element.index() + 1),
                ..old(self)@
            }),
    {
        let n = self.active_element.get_val();
        self.set_active_element(UIElement::from_val(n + 1));
    }

    /// Gives the focus to the previous widget; the first widget keeps it.
    pub fn activate_previous_element(&mut self)
        ensures
            final(self)@ == (UiStateView {
                active_element: if old(self)@.active_element.index() == 0 {
                    old(self)@.active_element
                } else {
                    UIElement::at(old(self)@.active_element.index() - 1)
                },
                ..old(self)@
            }),
    {
        let n = self.active_element.get_val();
        if n == 0 {
            return ;
        }
        self.set_active_element(UIElement::from_val(n - 1));
    }

    pub fn response(&self) -> (r: &Response)
        ensures
            r@ == self@.response,
    {
        &self.response
    }

    pub fn response_mut(&mut self) -> (r: &mut Response)
        ensures
            r@ == old(self)@.response,
            final(self)@ == (UiStateView { response: final(r)@, ..old(self)@ }),
    {
        &mut self.response
    }

    pub fn request_counter(&self) -> (c: u8)
        ensures
            c == self@.request_counter,
    {
        self.request_counter
    }

    /// Counts one more request. The counter starts again at zero after
    /// 255.
    pub fn increment_request_counter(&mut self)
        ensures
            final(self)@ == (UiStateView {
                request_counter: if old(self)@.request_counter == 255 {
                    0
                } else {
                    old(self)@.request_counter + 1
                },
                ..old(self)@
            }),
    {
        self.request_counter = if self.request_counter == 255 {
            0
        } else {
            self.request_counter + 1
        };
    }

    pub fn response_status_code(&self) -> (c: &Option<u16>)
        ensures
            *c == self@.response_status_code,
    {
        &self.response_status_code
    }

    pub fn set_response_status_code(&mut self, status: Option<u16>)
        ensures
            final(self)@ == (UiStateView { response_status_code: status, ..old(self)@ }),
    {
        self.response_status_code = status;
    }

    pub fn active_request_tab(&self) -> (t: &RequestTabs)
        ensures
            *t == self@.active_request_tab,
    {
        &self.active_request_tab
    }

    pub fn set_active_request_tab(&mut self, rt: RequestTabs)
        ensures
            final(self)@ == (UiStateView { active_request_tab: rt, ..old(self)@ }),
    {
        self.active_request_tab = rt;
    }

    /// Shows the next tab; after the last tab the first one.
    pub fn activate_next_req_tab(&mut self)
        ensures
            final(self)@ == (UiStateView {
                active_request_tab: RequestTabs::at(old(self)@.active_request_tab.index() + 1),
                ..old(self)@
            }),
    {
        let n = self.active_request_tab.get_val();
        self.set_active_request_tab(RequestTabs::from_val(n + 1));
    }

    /// Shows the previous tab; the first tab stays.
    pub fn activate_previous_req_tab(&mut self)
        ensures
            final(self)@ == (UiStateView {
                active_request_tab: if old(self)@.active_request_tab.index() == 0 {
                    old(self)@.active_request_tab
                } else {
                    RequestTabs::at(old(self)@.active_request_tab.index() - 1)
                },
                ..old(self)@
            }),
    {
        let n = self.active_request_tab.get_val();
        if n == 0 {
            return ;
        }
        self.set_active_request_tab(RequestTabs::from_val(n - 1));
    }

    pub fn request_headers(&self) -> (h: &Vec<KVData>)
        ensures
            rows_view(h@) == self@.request_headers,
    {
        &self.request_headers
    }

    pub fn request_headers_mut(&mut self) -> (h: &mut Vec<KVData>)
        ensures
            rows_view(h@) == old(self)@.request_headers,
            final(self)@ == (UiStateView {
                request_headers: rows_view(final(h)@),
                ..old(self)@
            }),
    {
        &mut self.request_headers
    }

    pub fn request_headers_ui(&self) -> (s: KVTabState)
        ensures
            s@ == self@.request_headers_ui,
    {
        self.request_headers_ui
    }

    pub fn request_headers_ui_mut(&mut self) -> (s: &mut KVTabState)
        ensures
            s@ == old(self)@.request_headers_ui,
            final(self)@ == (UiStateView { request_headers_ui: final(s)@, ..old(self)@ }),
    {
        &mut self.request_headers_ui
    }

    pub fn query_params_ui(&self) -> (s: KVTabState)
        ensures
            s@ == self@.query_params_ui,
    {
        self.query_params_ui
    }

    pub fn query_params_ui_mut(&mut self) -> (s: &mut KVTabState)
        ensures
            s@ == old(self)@.query_params_ui,
            final(self)@ == (UiStateView { query_params_ui: final(s)@, ..old(self)@ }),
    {
        &mut self.query_params_ui
    }

    pub fn app_status(&self) -> (s: &AppStatus)
        ensures
            *s == self@.app_status,
    {
        &self.app_status
    }

    pub fn set_app_status(&mut self, app_status: AppStatus)
        ensures
            final(self)@ == (UiStateView { app_status, ..old(self)@ }),
    {
        self.app_status = app_status;
    }

    pub fn app_error(&self) -> (e: &Option<String>)
        ensures
            option_view(*e) == self@.app_error,
    {
        &self.app_error
    }

    pub fn set_app_error(&mut self, error_str: String)
        ensures
            final(self)@ == (UiStateView { app_error: Some(error_str@), ..old(self)@ }),
    {
        self.app_error = Some(error_str);
    }

    /// Inserts a query parameter before index `pos`.
    pub fn insert_url_param(&mut self, pos: u16, param: KVData)
        ensures
            final(self)@ == (UiStateView {
                url_deconst: old(self)@.url_deconst.insert_param(pos as int, param@),
                ..old(self)@
            }),
    {
        self.url_deconst.insert_param(pos, param);
    }

    /// Removes the query parameter at index `pos`.
    pub fn remove_url_param(&mut self, pos: u16)
        ensures
            final(self)@ == (UiStateView {
                url_deconst: old(self)@.url_deconst.remove_param(pos as int),
                ..old(self)@
            }),
    {
        self.url_deconst.remove_param(pos);
    }

    /// Inserts a header before index `pos`.
    pub fn insert_header(&mut self, pos: u16, param: KVData)
        ensures
            final(self)@ == (UiStateView {
                request_headers: rows_insert(old(self)@.request_headers, pos as int, param@),
                ..old(self)@
            }),
    {
        insert_row(&mut self.request_headers, pos, param);
    }

    /// Removes the header at index `pos`; the headers never become empty.
    pub fn remove_header(&mut self, pos: u16)
        ensures
            final(self)@ == (UiStateView {
                request_headers: rows_remove(old(self)@.request_headers, pos as int),
                ..old(self)@
            }),
    {
        remove_row(&mut self.request_headers, pos);
    }
}

} // verus!
