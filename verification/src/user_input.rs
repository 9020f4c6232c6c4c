//! What a key press does: to the widget that has the focus, and then to the
//! focus itself. The caller reads the keyboard, hands each key press in, and
//! carries out the action that comes back.

use vstd::prelude::*;
use crate::app_status::AppStatus;
use crate::body::{Body, BodyContent, BodyUIElement, BodyView};
use crate::kv_tab::{kv_tab_changes, rows_after_key, state_after_key, KVTabKey};
use crate::request_tabs::RequestTabs;
use crate::response::{Response, ResponseView};
use crate::state::{EditorMode, InputMode, Method, UIElement, UiState, UiStateView};
use crate::text_edit::{TextEditMoveDirection, TextEditState};
use crate::text_laws::{
    lemma_delete_wf, lemma_insert_char_wf, lemma_move_cursor_wf, lemma_new_line_wf,
    lemma_select_all_wf,
};
use crate::text_model::TextEditModel;
use crate::url::{digit_of, UrlView};
use crate::url_params::PARAM_LIMIT;

verus! {

/// The keys that the application tells apart.
#[derive(Clone, Copy, Debug, PartialEq, Eq, Structural)]
pub enum Key {
    Esc,
    Enter,
    Tab,
    BackTab,
    Backspace,
    Delete,
    Up,
    Down,
    Left,
    Right,
    Home,
    End,
    Char(char),
    Other,
}

/// A key with the modifier keys held while it was pressed.
#[derive(Clone, Copy, Debug, PartialEq, Eq, Structural)]
pub struct KeyPress {
    pub code: Key,
    /// The control key was held.
    pub control: bool,
    /// The shift key was held.
    pub shift: bool,
    /// Some other modifier key was held.
    pub other: bool,
}

/// What the caller is to do after a key press.
#[derive(Clone, Copy, Debug, PartialEq, Eq, Structural)]
pub enum UserAction {
    Nothing,
    /// Leave the application.
    Exit,
    /// Send the request; a failure goes unreported.
    SendRequest,
    /// Send the request; a failure is shown in the status bar.
    SendRequestReporting,
    /// Put the selected text on the clipboard, then clear the selection.
    CopySelection,
    /// Paste the text on the clipboard into the body.
    Paste,
}

impl KeyPress {
    /// Control was held and no other modifier.
    pub open spec fn only_control(self) -> bool {
        self.control && !self.shift && !self.other
    }

    /// Shift was held and no other modifier.
    pub open spec fn only_shift(self) -> bool {
        self.shift && !self.control && !self.other
    }

    /// The key as a table of key-value rows sees it.
    pub open spec fn table_key(self) -> KVTabKey {
        match self.code {
            Key::Enter => KVTabKey::Enter,
            Key::Up => KVTabKey::Up,
            Key::Right => KVTabKey::Right,
            Key::Left => KVTabKey::Left,
            Key::Down => KVTabKey::Down,
            Key::Char(c) => KVTabKey::Char(c),
            Key::Backspace => KVTabKey::Backspace,
            _ => KVTabKey::Other,
        }
    }

    pub fn is_only_control(&self) -> (b: bool)
        ensures
            b == self.only_control(),
    {
        self.control && !self.shift && !self.other
    }

    pub fn is_only_shift(&self) -> (b: bool)
        ensures
            b == self.only_shift(),
    {
        self.shift && !self.control && !self.other
    }

    pub fn to_table_key(&self) -> (k: KVTabKey)
        ensures
            k == self.table_key(),
    {
        match self.code {
            Key::Enter => KVTabKey::Enter,
            Key::Up => KVTabKey::Up,
            Key::Right => KVTabKey::Right,
            Key::Left => KVTabKey::Left,
            Key::Down => KVTabKey::Down,
            Key::Char(c) => KVTabKey::Char(c),
            Key::Backspace => KVTabKey::Backspace,
            _ => KVTabKey::Other,
        }
    }
}

/// The text editor after a key press. Arrows, Home and End move the cursor,
/// by words with control on Left and Right, extending the selection with
/// shift. Enter starts a new line. Control with `a` selects everything; any
/// other character without control is typed. Backspace and Delete remove
/// a word with control alone, else the selection or a character.
pub open spec fn editor_after(text: TextEditModel, key: KeyPress) -> TextEditModel {
    match key.code {
        Key::Up => text.move_cursor(TextEditMoveDirection::Up, false, key.only_shift()),
        Key::Down => text.move_cursor(TextEditMoveDirection::Down, false, key.only_shift()),
        Key::Left => text.move_cursor(TextEditMoveDirection::Left, key.control, key.shift),
        Key::Right => text.move_cursor(TextEditMoveDirection::Right, key.control, key.shift),
        Key::End => text.move_cursor(TextEditMoveDirection::End, false, key.only_shift()),
        Key::Home => text.move_cursor(TextEditMoveDirection::Home, false, key.only_shift()),
        Key::Enter => text.new_line(),
        Key::Char(c) => if key.control {
            if c == 'a' || c == 'A' {
                text.select_all()
            } else {
                text
            }
        } else {
            text.insert_char(c)
        },
        Key::Backspace => if key.only_control() {
            text.delete_word()
        } else {
            text.delete_char()
        },
        Key::Delete => if key.only_control() {
            text.delete_word_to_right()
        } else {
            text.delete_char_to_right()
        },
        _ => text,
    }
}

/// What a key press in the text editor asks of the caller: control with `c`
/// to copy, where there is a selection, and control with `v` to paste.
pub open spec fn editor_action(text: TextEditModel, key: KeyPress) -> UserAction {
    match key.code {
        Key::Char(c) => if key.control && (c == 'c' || c == 'C') && text.selecting {
            UserAction::CopySelection
        } else if key.control && (c == 'v' || c == 'V') {
            UserAction::Paste
        } else {
            UserAction::Nothing
        },
        _ => UserAction::Nothing,
    }
}

/// Each key press keeps the editor's invariant.
pub proof fn lemma_editor_after_wf(text: TextEditModel, key: KeyPress)
    requires
        text.wf(),
    ensures
        editor_after(text, key).wf(),
{
    lemma_move_cursor_wf(text, TextEditMoveDirection::Up, false, key.only_shift());
    lemma_move_cursor_wf(text, TextEditMoveDirection::Down, false, key.only_shift());
    lemma_move_cursor_wf(text, TextEditMoveDirection::Left, key.control, key.shift);
    lemma_move_cursor_wf(text, TextEditMoveDirection::Right, key.control, key.shift);
    lemma_move_cursor_wf(text, TextEditMoveDirection::End, false, key.only_shift());
    lemma_move_cursor_wf(text, TextEditMoveDirection::Home, false, key.only_shift());
    lemma_new_line_wf(text);
    lemma_select_all_wf(text);
    lemma_delete_wf(text);
    match key.code {
        Key::Char(c) => {
            lemma_insert_char_wf(text, c);
        },
        _ => {},
    }
}

/// Handles a key press in the text editor.
pub fn handle_editor_key(text: &mut TextEditState, key: KeyPress) -> (action: UserAction)
    requires
        old(text).wf(),
    ensures
        final(text).wf(),
        final(text)@ == editor_after(old(text)@, key),
        action == editor_action(old(text)@, key),
{
    proof {
        lemma_editor_after_wf(text@, key);
    }
    match key.code {
        Key::Up => {
            text.move_cursor(TextEditMoveDirection::Up, false, key.is_only_shift());
        },
        Key::Down => {
            text.move_cursor(TextEditMoveDirection::Down, false, key.is_only_shift());
        },
        Key::Left => {
            text.move_cursor(TextEditMoveDirection::Left, key.control, key.shift);
        },
        Key::Right => {
            text.move_cursor(TextEditMoveDirection::Right, key.control, key.shift);
        },
        Key::End => {
            text.move_cursor(TextEditMoveDirection::End, false, key.is_only_shift());
        },
        Key::Home => {
            text.move_cursor(TextEditMoveDirection::Home, false, key.is_only_shift());
        },
        Key::Enter => {
            text.new_line();
        },
        Key::Char(c) => {
            if key.control {
                if c == 'a' || c == 'A' {
                    text.select_all();
                } else if (c == 'c' || c == 'C') && text.selecting() {
                    return UserAction::CopySelection;
                } else if c == 'v' || c == 'V' {
                    return UserAction::Paste;
                }
            } else {
                text.insert_char(c);
            }
        },
        Key::Backspace => {
            if key.is_only_control() {
                text.delete_word();
            } else {
                text.delete_char();
            }
        },
        Key::Delete => {
            if key.is_only_control() {
                text.delete_word_to_right();
            } else {
                text.delete_char_to_right();
            }
        },
        _ => {},
    }
    UserAction::Nothing
}

/// The list of kinds of body after a key press, open or closed as `opened`
/// says. Enter opens the closed list, and on the open list chooses the
/// highlighted kind and closes it. Up and Down move the highlight through the
/// open list, which scrolls to follow. Control with Down on the closed list
/// goes on to the widget that edits the chosen kind of body.
pub open spec fn content_type_after(body: BodyView, key: KeyPress, opened: bool) -> BodyView {
    let sel = body.body_content_sel_index;
    let offset = body.body_content_scroll_offset;
    match key.code {
        Key::Enter => if !opened {
            BodyView { active_body_element: BodyUIElement::ContentType(true), ..body }
        } else if sel < body.body_content_options.len() {
            BodyView {
                body_content: BodyContent::parse(body.body_content_options[sel]),
                active_body_element: BodyUIElement::ContentType(false),
                ..body
            }
        } else {
            BodyView { active_body_element: BodyUIElement::ContentType(false), ..body }
        },
        Key::Up => if opened && sel > 0 {
            BodyView {
                body_content_scroll_offset: if offset == sel {
                    offset - 1
                } else {
                    offset
                },
                body_content_sel_index: sel - 1,
                ..body
            }
        } else {
            body
        },
        Key::Down => if opened {
            if sel + 1 < body.body_content_options.len() && sel + 1 <= u8::MAX {
                BodyView {
                    body_content_scroll_offset: if sel - offset == 4 && offset < u8::MAX {
                        offset + 1
                    } else {
                        offset
                    },
                    body_content_sel_index: sel + 1,
                    ..body
                }
            } else {
                body
            }
        } else if key.only_control() {
            match body.body_content {
                BodyContent::FormData | BodyContent::FormURLEncoded => BodyView {
                    active_body_element: BodyUIElement::KVArea,
                    ..body
                },
                BodyContent::Text | BodyContent::Html | BodyContent::Xml => BodyView {
                    active_body_element: BodyUIElement::TextArea,
                    ..body
                },
                _ => body,
            }
        } else {
            body
        },
        _ => body,
    }
}

/// The body tab after a key press. The key goes to the widget that has the
/// focus within the tab. Control with Up leaves the text editor, and Up on
/// the first row leaves the table of form fields, for the list of kinds.
pub open spec fn body_after(body: BodyView, key: KeyPress) -> BodyView {
    match body.active_body_element {
        BodyUIElement::TextArea => if key.code == Key::Up && key.only_control() {
            BodyView { active_body_element: BodyUIElement::ContentType(false), ..body }
        } else {
            BodyView { text_data: editor_after(body.text_data, key), ..body }
        },
        BodyUIElement::ContentType(opened) => content_type_after(body, key, opened),
        BodyUIElement::KVArea => match body.body_content {
            BodyContent::FormData | BodyContent::FormURLEncoded => if body.kv_tab_state.active_row
                == 0 && key.code == Key::Up {
                BodyView { active_body_element: BodyUIElement::ContentType(false), ..body }
            } else {
                BodyView {
                    kv_data: rows_after_key(
                        body.kv_data,
                        body.kv_tab_state,
                        key.table_key(),
                        key.only_control(),
                        usize::MAX as int,
                    ),
                    kv_tab_state: state_after_key(
                        body.kv_data,
                        body.kv_tab_state,
                        key.table_key(),
                        key.only_control(),
                    ),
                    ..body
                }
            },
            _ => body,
        },
        BodyUIElement::RawContentType(_) => body,
    }
}

/// What a key press in the body tab asks of the caller.
pub open spec fn body_action(body: BodyView, key: KeyPress) -> UserAction {
    match body.active_body_element {
        BodyUIElement::TextArea => if key.code == Key::Up && key.only_control() {
            UserAction::Nothing
        } else {
            editor_action(body.text_data, key)
        },
        _ => UserAction::Nothing,
    }
}

/// Handles a key press on the list of kinds of body.
pub fn handle_content_type_key(body: &mut Body, key: KeyPress, opened: bool)
    ensures
        final(body)@ == content_type_after(old(body)@, key, opened),
{
    let sel = *body.body_content_sel_index();
    let offset = *body.body_content_scroll_offset();
    match key.code {
        Key::Enter => {
            if opened {
                let options = body.body_content_options();
                if (sel as usize) < options.len() {
                    body.set_body_content(BodyContent::from_str(options[sel as usize].as_str()));
                }
                body.set_active_body_element(BodyUIElement::ContentType(false));
            } else {
                body.set_active_body_element(BodyUIElement::ContentType(true));
            }
        },
        Key::Up => {
            if opened && sel > 0 {
                if offset == sel {
                    body.set_body_content_scroll_offset(offset - 1);
                }
                body.set_body_content_sel_index(sel - 1);
            }
        },
        Key::Down => {
            if opened {
                let count = body.body_content_options().len();
                if sel < u8::MAX && (sel as usize) + 1 < count {
                    if sel >= offset && sel - offset == 4 && offset < u8::MAX {
                        body.set_body_content_scroll_offset(offset + 1);
                    }
                    body.set_body_content_sel_index(sel + 1);
                }
            } else if key.is_only_control() {
                match *body.body_content() {
                    BodyContent::FormData | BodyContent::FormURLEncoded => {
                        body.set_active_body_element(BodyUIElement::KVArea);
                    },
                    BodyContent::Text | BodyContent::Html | BodyContent::Xml => {
                        body.set_active_body_element(BodyUIElement::TextArea);
                    },
                    _ => {},
                }
            }
        },
        _ => {},
    }
}

/// Handles a key press in the body tab.
pub fn handle_body_key(body: &mut Body, key: KeyPress) -> (action: UserAction)
    requires
        old(body)@.text_data.wf(),
    ensures
        final(body)@ == body_after(old(body)@, key),
        final(body)@.text_data.wf(),
        action == body_action(old(body)@, key),
{
    let element = *body.active_body_element();
    match element {
        BodyUIElement::TextArea => {
            if key.code == Key::Up && key.is_only_control() {
                body.set_active_body_element(BodyUIElement::ContentType(false));
                UserAction::Nothing
            } else {
                let text = body.text_data_mut();
                handle_editor_key(text, key)
            }
        },
        BodyUIElement::ContentType(opened) => {
            handle_content_type_key(body, key, opened);
            UserAction::Nothing
        },
        BodyUIElement::KVArea => {
            match *body.body_content() {
                BodyContent::FormData | BodyContent::FormURLEncoded => {
                    if body.kv_tab_state().active_row() == 0 && key.code == Key::Up {
                        body.set_active_body_element(BodyUIElement::ContentType(false));
                    } else {
                        body.handle_kv_key(key.to_table_key(), key.is_only_control());
                    }
                },
                _ => {},
            }
            UserAction::Nothing
        },
        BodyUIElement::RawContentType(_) => UserAction::Nothing,
    }
}

/// The response area after a key press: Up and Down scroll by one line, by
/// four with control alone, not above the first line and not to or beyond
/// the end.
pub open spec fn response_after(response: ResponseView, key: KeyPress) -> ResponseView {
    let by: int = if key.only_control() {
        4
    } else {
        1
    };
    match key.code {
        Key::Up => ResponseView {
            scroll_pos: if response.scroll_pos >= by {
                response.scroll_pos - by
            } else {
                0
            },
            ..response
        },
        Key::Down => if response.scroll_pos + by < response.response.len() && response.scroll_pos
            + by <= u16::MAX {
            ResponseView { scroll_pos: response.scroll_pos + by, ..response }
        } else {
            response
        },
        _ => response,
    }
}

/// Handles a key press in the response area.
pub fn handle_response_key(response: &mut Response, key: KeyPress)
    ensures
        final(response)@ == response_after(old(response)@, key),
{
    let pos = response.scroll_pos();
    let by: u16 = if key.is_only_control() {
        4
    } else {
        1
    };
    match key.code {
        Key::Up => {
            if pos >= by {
                response.set_scroll_pos(pos - by);
            } else {
                response.set_scroll_pos(0);
            }
        },
        Key::Down => {
            let lines = response.response();
            let count = lines.len();
            proof {
                assert(crate::chars::strings_view(lines@).len() == count);
            }
            if pos <= u16::MAX - by && ((pos + by) as usize) < count {
                response.set_scroll_pos(pos + by);
            }
        },
        _ => {},
    }
}

/// The method after a key press on the method widget: a digit from one to
/// nine chooses by number, counting from one; a letter chooses by letter.
pub open spec fn method_after(method: Method, key: KeyPress) -> Method {
    match key.code {
        Key::Char(c) => match digit_of(c) {
            Some(d) => if d > 0 {
                Method::at(d - 1)
            } else {
                method
            },
            None => Method::for_char(c),
        },
        _ => method,
    }
}

/// The state after the key went to the widget that has the focus.
pub open spec fn after_element_key(s: UiStateView, key: KeyPress) -> UiStateView {
    match s.active_element {
        UIElement::URL => match key.code {
            Key::Char(c) => UiStateView {
                url: s.url.push(c),
                url_deconst: s.url_deconst.update(s.url.push(c)),
                ..s
            },
            Key::Backspace => UiStateView { url: crate::kv_tab::without_last(s.url), ..s },
            Key::Enter => UiStateView { app_status: AppStatus::PROCESSING, ..s },
            _ => s,
        },
        UIElement::RequestTabsElem => match s.active_request_tab {
            RequestTabs::UrlParams => {
                let params = rows_after_key(
                    s.url_deconst.query_params,
                    s.query_params_ui,
                    key.table_key(),
                    key.only_control(),
                    PARAM_LIMIT as int,
                );
                let url_deconst = UrlView { query_params: params, ..s.url_deconst };
                UiStateView {
                    url_deconst,
                    query_params_ui: state_after_key(
                        s.url_deconst.query_params,
                        s.query_params_ui,
                        key.table_key(),
                        key.only_control(),
                    ),
                    url: if kv_tab_changes(
                        key.table_key(),
                        s.query_params_ui.active_row as u16,
                        s.query_params_ui.active_col as u8,
                    ) {
                        url_deconst.text()
                    } else {
                        s.url
                    },
                    ..s
                }
            },
            RequestTabs::Headers => UiStateView {
                request_headers: rows_after_key(
                    s.request_headers,
                    s.request_headers_ui,
                    key.table_key(),
                    key.only_control(),
                    usize::MAX as int,
                ),
                request_headers_ui: state_after_key(
                    s.request_headers,
                    s.request_headers_ui,
                    key.table_key(),
                    key.only_control(),
                ),
                ..s
            },
            RequestTabs::Body => UiStateView { body: body_after(s.body, key), ..s },
            RequestTabs::Authorization => s,
        },
        UIElement::RequestTabsHead => match key.code {
            Key::Right => UiStateView {
                active_request_tab: RequestTabs::at(s.active_request_tab.index() + 1),
                ..s
            },
            Key::Left => UiStateView {
                active_request_tab: if s.active_request_tab.index() == 0 {
                    s.active_request_tab
                } else {
                    RequestTabs::at(s.active_request_tab.index() - 1)
                },
                ..s
            },
            _ => s,
        },
        UIElement::ResponseArea => UiStateView { response: response_after(s.response, key), ..s },
        UIElement::SendButton => s,
        UIElement::Method => UiStateView { method: method_after(s.method, key), ..s },
    }
}

/// The focus after a key press: Tab moves it on, BackTab moves it back.
pub open spec fn focus_after(element: UIElement, key: KeyPress) -> UIElement {
    match key.code {
        Key::Tab => UIElement::at(element.index() + 1),
        Key::BackTab => if element.index() == 0 {
            element
        } else {
            UIElement::at(element.index() - 1)
        },
        _ => element,
    }
}

/// Whether the keyboard drives the application directly.
pub open spec fn takes_keys(s: UiStateView) -> bool {
    s.editor_mode == EditorMode::Normal || s.input_mode == InputMode::Normal
}

/// The state after a key press. Escape changes nothing. Any other key goes
/// to the widget that has the focus, and then Tab and BackTab move the
/// focus.
pub open spec fn after_key(s: UiStateView, key: KeyPress) -> UiStateView {
    if !takes_keys(s) || key.code == Key::Esc {
        s
    } else {
        let handled = after_element_key(s, key);
        UiStateView { active_element: focus_after(handled.active_element, key), ..handled }
    }
}

/// What a key press asks of the caller. Escape leaves the application.
/// Enter sends the request, from the URL bar and from the send button. The
/// text editor of the body asks for the clipboard.
pub open spec fn action_of(s: UiStateView, key: KeyPress) -> UserAction {
    if !takes_keys(s) {
        UserAction::Nothing
    } else if key.code == Key::Esc {
        UserAction::Exit
    } else {
        match s.active_element {
            UIElement::URL => if key.code == Key::Enter {
                UserAction::SendRequest
            } else {
                UserAction::Nothing
            },
            UIElement::SendButton => if key.code == Key::Enter {
                UserAction::SendRequestReporting
            } else {
                UserAction::Nothing
            },
            UIElement::RequestTabsElem => if s.active_request_tab == RequestTabs::Body {
                body_action(s.body, key)
            } else {
                UserAction::Nothing
            },
            _ => UserAction::Nothing,
        }
    }
}

/// Handles a key press on the widget that has the focus.
fn handle_element_key(uistate: &mut UiState, key: KeyPress) -> (action: UserAction)
    requires
        old(uistate).wf(),
        takes_keys(old(uistate)@),
        key.code != Key::Esc,
    ensures
        final(uistate).wf(),
        final(uistate)@ == after_element_key(old(uistate)@, key),
        action == action_of(old(uistate)@, key),
{
    let element = *uistate.active_element();
    match element {
        UIElement::URL => {
            match key.code {
                Key::Char(c) => {
                    uistate.append_url(c);
                    let url = uistate.url();
                    let deconst = uistate.url_deconst_mut();
                    deconst.update(url);
                    UserAction::Nothing
                },
                Key::Backspace => {
                    uistate.pop_url();
                    UserAction::Nothing
                },
                Key::Enter => {
                    uistate.set_app_status(AppStatus::PROCESSING);
                    UserAction::SendRequest
                },
                _ => UserAction::Nothing,
            }
        },
        UIElement::RequestTabsElem => {
            let tab = *uistate.active_request_tab();
            match tab {
                RequestTabs::UrlParams => {
                    uistate.handle_query_params_key(key.to_table_key(), key.is_only_control());
                    UserAction::Nothing
                },
                RequestTabs::Headers => {
                    uistate.handle_headers_key(key.to_table_key(), key.is_only_control());
                    UserAction::Nothing
                },
                RequestTabs::Body => {
                    let body = uistate.body_mut();
                    handle_body_key(body, key)
                },
                RequestTabs::Authorization => UserAction::Nothing,
            }
        },
        UIElement::RequestTabsHead => {
            match key.code {
                Key::Right => {
                    uistate.activate_next_req_tab();
                },
                Key::Left => {
                    uistate.activate_previous_req_tab();
                },
                _ => {},
            }
            UserAction::Nothing
        },
        UIElement::ResponseArea => {
            let response = uistate.response_mut();
            handle_response_key(response, key);
            UserAction::Nothing
        },
        UIElement::SendButton => {
            match key.code {
                Key::Enter => UserAction::SendRequestReporting,
                _ => UserAction::Nothing,
            }
        },
        UIElement::Method => {
            match key.code {
                Key::Char(c) => {
                    match crate::url::char_to_digit(c) {
                        Some(d) => {
                            if d > 0 {
                                uistate.set_method_from_val((d - 1) as u8);
                            }
                        },
                        None => {
                            uistate.set_method_from_char(c);
                        },
                    }
                },
                _ => {},
            }
            UserAction::Nothing
        },
    }
}

/// Handles one key press and says what the caller is to do.
pub fn process_user_input(uistate: &mut UiState, key: KeyPress) -> (action: UserAction)
    requires
        old(uistate).wf(),
    ensures
        final(uistate).wf(),
        final(uistate)@ == after_key(old(uistate)@, key),
        action == action_of(old(uistate)@, key),
{
    if !uistate.takes_keys() {
        return UserAction::Nothing;
    }
    if key.code == Key::Esc {
        return UserAction::Exit;
    }
    let action = handle_element_key(uistate, key);
    match key.code {
        Key::Tab => {
            uistate.activate_next_element();
        },
        Key::BackTab => {
            uistate.activate_previous_element();
        },
        _ => {},
    }
    action
}

} // verus!
