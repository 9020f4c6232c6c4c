use dakia::api::{
    body_content_type, format_response, is_json_content, process_response,
    request_headers_to_send, response_text,
};
use dakia::app_status::AppStatus;
use dakia::body::{Body, BodyContent, BodyCursorPosition, BodyUIElement, RawBodyContentType};
use dakia::kv_data::KVData;
use dakia::kv_tab::KVTabKey;
use dakia::kv_tab_state::KVTabState;
use dakia::request_tabs::RequestTabs;
use dakia::response::Response;
use dakia::state::{EditorMode, InputMode, Method, UIElement, UiState};

fn row(key: &str, value: &str) -> KVData {
    KVData::new(key.to_string(), value.to_string())
}

fn strings(v: &[&str]) -> Vec<String> {
    v.iter().map(|s| s.to_string()).collect()
}

#[test]
fn app_status_labels() {
    assert_eq!(AppStatus::default(), AppStatus::STARTUP);
    assert_eq!(AppStatus::STARTUP.to_str(), "");
    assert_eq!(AppStatus::PROCESSING.to_str(), "Processing");
    assert_eq!(AppStatus::DONE.to_str(), "Done");
    assert_eq!(AppStatus::ERROR.to_str(), "Error");
}

#[test]
fn request_tabs_by_number_and_label() {
    assert_eq!(RequestTabs::default(), RequestTabs::UrlParams);
    assert_eq!(
        RequestTabs::iter(),
        vec![RequestTabs::UrlParams, RequestTabs::Authorization, RequestTabs::Headers, RequestTabs::Body]
    );
    let labels: Vec<String> = RequestTabs::iter().into_iter().map(|t| t.get_str_label()).collect();
    assert_eq!(labels, strings(&["URL Params", "Authorization", "Headers", "Body"]));
    for (i, t) in RequestTabs::iter().into_iter().enumerate() {
        assert_eq!(t.get_val() as usize, i);
        assert_eq!(RequestTabs::from_val(i as u8), t);
    }
    assert_eq!(RequestTabs::from_val(4), RequestTabs::UrlParams);
    assert_eq!(RequestTabs::from_val(255), RequestTabs::UrlParams);
}

#[test]
fn body_content_names() {
    assert_eq!(
        BodyContent::as_string_vec(),
        strings(&["None", "Form Data", "Form URL-encoded", "Json", "Text", "Html", "Xml"])
    );
    for kind in BodyContent::iter() {
        assert_eq!(BodyContent::from_string(kind.to_string()), kind);
        assert_eq!(BodyContent::from_str(&kind.to_string()), kind);
    }
    assert_eq!(BodyContent::iter().len(), 7);
    assert_eq!(BodyContent::from_str("json"), BodyContent::NONE);
    assert_eq!(BodyContent::from_str(""), BodyContent::NONE);
    assert_eq!(BodyContent::default(), BodyContent::NONE);
}

#[test]
fn raw_body_content_names() {
    assert_eq!(RawBodyContentType::as_string_vec(), strings(&["Text", "JSON", "HTML", "XML"]));
    for kind in RawBodyContentType::iter() {
        assert_eq!(RawBodyContentType::from_string(kind.to_string()), kind);
        assert_eq!(RawBodyContentType::from_str(&kind.to_string()), kind);
    }
    assert_eq!(RawBodyContentType::from_str("Json"), RawBodyContentType::Text);
    assert_eq!(RawBodyContentType::default(), RawBodyContentType::Text);
}

#[test]
fn body_defaults_and_accessors() {
    let mut b = Body::default();
    assert_eq!(*b.active_body_element(), BodyUIElement::ContentType(false));
    assert_eq!(*b.body_content(), BodyContent::NONE);
    assert_eq!(*b.body_content_sel_index(), 0);
    assert_eq!(b.body_content_options(), BodyContent::as_string_vec());
    assert_eq!(*b.body_content_scroll_offset(), 0);
    assert_eq!(*b.raw_body_content(), RawBodyContentType::Text);
    assert_eq!(b.raw_body_content_options(), RawBodyContentType::as_string_vec());
    assert_eq!(*b.raw_body_content_sel_index(), 0);
    assert_eq!(*b.cursor_position(), BodyCursorPosition::NONE);
    assert_eq!(*b.disp_content_len(), 5);
    assert_eq!(b.kv_data(), &vec![row("", "")]);
    assert_eq!(*b.kv_tab_state(), KVTabState::default());
    assert_eq!(b.text_data().text(), "");

    b.set_active_body_element(BodyUIElement::TextArea);
    b.set_body_content(BodyContent::Json);
    b.set_body_content_sel_index(3);
    b.set_body_content_options(strings(&["a"]));
    b.set_body_content_scroll_offset(2);
    b.set_raw_body_content(RawBodyContentType::Xml);
    b.set_raw_body_content_options(strings(&["b"]));
    b.set_raw_body_content_sel_index(1);
    b.set_cursor_position(BodyCursorPosition::RawCursor(4, 2));
    b.set_disp_content_len(9);
    b.kv_data_mut().push(row("k", "v"));
    b.kv_tab_state_mut().set_active_row(1);
    b.text_data_mut().insert_char('x');
    let c = b.clone();
    assert_eq!(*c.active_body_element(), BodyUIElement::TextArea);
    assert_eq!(*c.body_content(), BodyContent::Json);
    assert_eq!(*c.body_content_sel_index(), 3);
    assert_eq!(c.body_content_options(), strings(&["a"]));
    assert_eq!(*c.body_content_scroll_offset(), 2);
    assert_eq!(*c.raw_body_content(), RawBodyContentType::Xml);
    assert_eq!(c.raw_body_content_options(), strings(&["b"]));
    assert_eq!(*c.raw_body_content_sel_index(), 1);
    assert_eq!(*c.cursor_position(), BodyCursorPosition::RawCursor(4, 2));
    assert_eq!(*c.disp_content_len(), 9);
    assert_eq!(c.kv_data(), &vec![row("", ""), row("k", "v")]);
    assert_eq!(c.kv_tab_state().active_row(), 1);
    assert_eq!(c.text_data().text(), "x");
}

#[test]
fn body_table_keys() {
    let mut b = Body::default();
    b.handle_kv_key(KVTabKey::Char('k'), false);
    assert_eq!(b.kv_data(), &vec![row("k", "")]);
    b.handle_kv_key(KVTabKey::Right, true);
    b.handle_kv_key(KVTabKey::Char('v'), false);
    assert_eq!(b.kv_data(), &vec![row("k", "v")]);
    assert_eq!(b.kv_tab_state().active_col(), 1);
}

#[test]
fn response_lines() {
    let mut r = Response::default();
    assert!(!r.initialized());
    assert_eq!(r.response(), &strings(&[]));
    assert_eq!((r.cache_req_counter(), r.scroll_pos()), (0, 0));
    r.from_str("a\nb\r\n".to_string());
    assert!(r.initialized());
    assert_eq!(r.response(), &strings(&["a", "b\r", ""]));
    r.set_response(strings(&["x"]));
    r.set_cache_req_counter(3);
    r.set_scroll_pos(2);
    let c = r.clone();
    assert_eq!(c.response(), &strings(&["x"]));
    assert_eq!((c.cache_req_counter(), c.scroll_pos()), (3, 2));
    assert!(c.initialized());
    let mut fresh = Response::default();
    fresh.set_response(vec![]);
    assert!(fresh.initialized());
}

#[test]
fn ui_elements_by_number() {
    let all = [
        UIElement::Method,
        UIElement::URL,
        UIElement::SendButton,
        UIElement::RequestTabsHead,
        UIElement::RequestTabsElem,
        UIElement::ResponseArea,
    ];
    for (i, e) in all.iter().enumerate() {
        assert_eq!(e.get_val() as usize, i);
        assert_eq!(UIElement::from_val(i as u8), *e);
    }
    assert_eq!(UIElement::from_val(6), UIElement::ResponseArea);
    assert_eq!(UIElement::default(), UIElement::URL);
    assert_eq!(EditorMode::default(), EditorMode::Normal);
    assert_eq!(InputMode::default(), InputMode::Normal);
}

#[test]
fn methods_by_number_and_letter() {
    let all = [
        Method::GET,
        Method::POST,
        Method::PUT,
        Method::DELETE,
        Method::HEAD,
        Method::OPTIONS,
        Method::CONNECT,
        Method::PATCH,
        Method::TRACE,
    ];
    for (i, m) in all.iter().enumerate() {
        assert_eq!(Method::from_val(i as u8), *m);
    }
    assert_eq!(Method::from_val(9), Method::GET);
    let letters = ['g', 'p', 'u', 'd', 'h', 'o', 'c', 'a', 't'];
    for (c, m) in letters.iter().zip(all.iter()) {
        assert_eq!(Method::from_char(*c), *m);
        assert_eq!(Method::from_char(c.to_ascii_uppercase()), *m);
    }
    assert_eq!(Method::from_char('x'), Method::GET);
    assert_eq!(Method::from_char('1'), Method::GET);
    assert_eq!(Method::DELETE.as_str(), "DELETE");
    assert_eq!(Method::GET.as_str(), "GET");
    assert_eq!(Method::default(), Method::GET);
}

#[test]
fn ui_state_defaults() {
    let s = UiState::default();
    assert_eq!(s.url(), "");
    assert_eq!(s.url_deconst().to_string(), "http://?");
    assert_eq!(s.method(), Method::GET);
    assert_eq!(*s.active_request_tab(), RequestTabs::UrlParams);
    assert_eq!(s.request_counter(), 0);
    assert_eq!(s.request_headers(), &vec![row("", "")]);
    assert_eq!(s.request_headers_ui(), KVTabState::default());
    assert_eq!(s.query_params_ui(), KVTabState::default());
    assert!(!s.response().initialized());
    assert_eq!(*s.response_status_code(), None);
    assert_eq!(*s.active_element(), UIElement::URL);
    assert_eq!(s.input_mode(), InputMode::Normal);
    assert_eq!(*s.app_status(), AppStatus::STARTUP);
    assert_eq!(*s.app_error(), None);
    assert_eq!(*s.body().body_content(), BodyContent::NONE);
    assert!(s.takes_keys());
    assert_eq!(s.editor_mode(), EditorMode::Normal);
}

#[test]
fn ui_state_url_editing() {
    let mut s = UiState::default();
    s.set_url("ab".to_string());
    s.append_url('c');
    s.append_url_string("de".to_string());
    assert_eq!(s.url(), "abcde");
    s.pop_url();
    assert_eq!(s.url(), "abcd");
    s.set_url("".to_string());
    s.pop_url();
    assert_eq!(s.url(), "");
    s.url_deconst_mut().update("example.com:8080".to_string());
    assert_eq!(s.url_deconst().port(), 8080);
}

#[test]
fn ui_state_setters() {
    let mut s = UiState::default();
    s.set_method(Method::PUT);
    assert_eq!(s.method(), Method::PUT);
    s.set_method_from_val(3);
    assert_eq!(s.method(), Method::DELETE);
    s.set_method_from_val(77);
    assert_eq!(s.method(), Method::GET);
    s.set_method_from_char('A');
    assert_eq!(s.method(), Method::PATCH);
    s.set_method_from_char('?');
    assert_eq!(s.method(), Method::GET);
    s.set_editor_mode(EditorMode::VIM);
    assert!(s.takes_keys());
    s.set_input_mode(InputMode::INSERT);
    assert!(!s.takes_keys());
    assert_eq!(s.input_mode(), InputMode::INSERT);
    assert_eq!(s.clone().editor_mode(), EditorMode::VIM);
    s.set_active_element(UIElement::SendButton);
    assert_eq!(*s.active_element(), UIElement::SendButton);
    s.set_response_status_code(Some(404));
    assert_eq!(*s.response_status_code(), Some(404));
    s.set_active_request_tab(RequestTabs::Body);
    assert_eq!(*s.active_request_tab(), RequestTabs::Body);
    s.set_app_status(AppStatus::DONE);
    assert_eq!(*s.app_status(), AppStatus::DONE);
    s.set_app_error("boom".to_string());
    assert_eq!(*s.app_error(), Some("boom".to_string()));
    s.response_mut().set_scroll_pos(3);
    assert_eq!(s.response().scroll_pos(), 3);
    s.request_headers_ui_mut().set_active_row(2);
    assert_eq!(s.request_headers_ui().active_row(), 2);
    s.query_params_ui_mut().set_active_col(1);
    assert_eq!(s.query_params_ui().active_col(), 1);
    s.request_headers_mut().push(row("a", "b"));
    assert_eq!(s.request_headers().len(), 2);
    s.body_mut().set_body_content(BodyContent::Xml);
    assert_eq!(*s.body().body_content(), BodyContent::Xml);
}

#[test]
fn focus_moves_within_the_widgets() {
    let mut s = UiState::default();
    s.activate_previous_element();
    assert_eq!(*s.active_element(), UIElement::Method);
    s.activate_previous_element();
    assert_eq!(*s.active_element(), UIElement::Method);
    for _ in 0..5 {
        s.activate_next_element();
    }
    assert_eq!(*s.active_element(), UIElement::ResponseArea);
    s.activate_next_element();
    assert_eq!(*s.active_element(), UIElement::ResponseArea);
}

#[test]
fn tabs_move_and_wrap_forward() {
    let mut s = UiState::default();
    s.activate_previous_req_tab();
    assert_eq!(*s.active_request_tab(), RequestTabs::UrlParams);
    s.activate_next_req_tab();
    assert_eq!(*s.active_request_tab(), RequestTabs::Authorization);
    s.activate_next_req_tab();
    s.activate_next_req_tab();
    assert_eq!(*s.active_request_tab(), RequestTabs::Body);
    s.activate_next_req_tab();
    assert_eq!(*s.active_request_tab(), RequestTabs::UrlParams);
    s.set_active_request_tab(RequestTabs::Headers);
    s.activate_previous_req_tab();
    assert_eq!(*s.active_request_tab(), RequestTabs::Authorization);
}

#[test]
fn request_counter_wraps() {
    let mut s = UiState::default();
    for _ in 0..255 {
        s.increment_request_counter();
    }
    assert_eq!(s.request_counter(), 255);
    s.increment_request_counter();
    assert_eq!(s.request_counter(), 0);
}

#[test]
fn headers_and_params_never_become_empty() {
    let mut s = UiState::default();
    s.remove_header(0);
    assert_eq!(s.request_headers(), &vec![row("", "")]);
    s.insert_header(1, row("a", "b"));
    s.insert_header(9, row("x", "y"));
    assert_eq!(s.request_headers(), &vec![row("", ""), row("a", "b")]);
    s.remove_header(0);
    s.remove_header(4);
    assert_eq!(s.request_headers(), &vec![row("a", "b")]);
    s.remove_url_param(0);
    assert_eq!(s.url_deconst().query_params(), &vec![row("", "")]);
    s.insert_url_param(0, row("q", "1"));
    assert_eq!(s.url_deconst().query_params(), &vec![row("q", "1"), row("", "")]);
}

#[test]
fn table_keys_on_params_rewrite_the_url() {
    let mut s = UiState::default();
    s.set_url("example.com:8080".to_string());
    s.url_deconst_mut().update("example.com:8080".to_string());
    s.handle_query_params_key(KVTabKey::Right, true);
    assert_eq!(s.url(), "example.com:8080");
    s.handle_query_params_key(KVTabKey::Left, true);
    s.handle_query_params_key(KVTabKey::Char('q'), false);
    assert_eq!(s.url(), "http://example.com:8080?q");
    s.handle_query_params_key(KVTabKey::Right, true);
    s.handle_query_params_key(KVTabKey::Char('1'), false);
    assert_eq!(s.url(), "http://example.com:8080?q=1");
    assert_eq!(s.url_deconst().query_params(), &vec![row("q", "1")]);
    s.handle_headers_key(KVTabKey::Char('h'), false);
    assert_eq!(s.request_headers(), &vec![row("h", "")]);
    assert_eq!(s.url(), "http://example.com:8080?q=1");
}

#[test]
fn json_is_recognised_by_its_content_type() {
    assert!(is_json_content("application/json"));
    assert!(is_json_content("application/json; charset=utf-8"));
    assert!(!is_json_content("text/html"));
    assert!(!is_json_content(""));
    assert!(!is_json_content("Application/json"));
}

#[test]
fn json_responses_are_laid_out() {
    assert_eq!(
        format_response(true, "{\"a\":1,\"b\":[1,2]}".to_string()),
        "{\n  \"a\": 1,\n  \"b\": [\n    1,\n    2\n  ]\n}"
    );
    assert_eq!(format_response(false, "{\"a\":1}".to_string()), "{\"a\":1}");
    assert_eq!(format_response(true, "".to_string()), "");
}

#[test]
fn response_text_follows_the_printer() {
    let text = "raw".to_string();
    assert_eq!(response_text(true, text.clone(), Ok("pretty".to_string())), "pretty");
    assert_eq!(response_text(true, text.clone(), Err("words".to_string())), "words");
    assert_eq!(response_text(false, text.clone(), Ok("pretty".to_string())), "raw");
    assert_eq!(response_text(false, text, Err("words".to_string())), "raw");
}

#[test]
fn responses_fill_the_response_area() {
    let mut s = UiState::default();
    process_response(&mut s, Some("application/json"), Some("{\"a\":1}".to_string()));
    assert_eq!(s.response().response(), &strings(&["{", "  \"a\": 1", "}"]));
    assert!(s.response().initialized());
    assert_eq!(*s.app_status(), AppStatus::DONE);
    process_response(&mut s, Some("text/plain"), Some("a\nb".to_string()));
    assert_eq!(s.response().response(), &strings(&["a", "b"]));
    process_response(&mut s, None, Some("{\"a\":1}".to_string()));
    assert_eq!(s.response().response(), &strings(&["{\"a\":1}"]));
    process_response(&mut s, Some("application/json"), None);
    assert_eq!(*s.app_status(), AppStatus::ERROR);
    assert_eq!(s.response().response(), &strings(&["{\"a\":1}"]));
}

#[test]
fn content_types_by_kind_of_body() {
    assert_eq!(body_content_type(BodyContent::NONE), None);
    assert_eq!(body_content_type(BodyContent::FormData), Some("multipart/form-data"));
    assert_eq!(
        body_content_type(BodyContent::FormURLEncoded),
        Some("application/x-www-form-urlencoded")
    );
    assert_eq!(body_content_type(BodyContent::Text), Some("text/plain"));
    assert_eq!(body_content_type(BodyContent::Json), Some("application/json"));
    assert_eq!(body_content_type(BodyContent::Html), Some("text/html"));
    assert_eq!(body_content_type(BodyContent::Xml), Some("application/xml"));
}

#[test]
fn headers_to_send_are_the_filled_ones_and_the_content_type() {
    let headers = vec![row("a", "1"), row("", "x"), row("b", ""), row("c", "3")];
    assert_eq!(
        request_headers_to_send(&headers, Method::GET, BodyContent::Json),
        vec![row("a", "1"), row("c", "3")]
    );
    assert_eq!(
        request_headers_to_send(&headers, Method::POST, BodyContent::Json),
        vec![row("a", "1"), row("c", "3"), row("content-type", "application/json")]
    );
    assert_eq!(
        request_headers_to_send(&headers, Method::POST, BodyContent::NONE),
        vec![row("a", "1"), row("c", "3")]
    );
    assert_eq!(
        request_headers_to_send(&vec![], Method::PUT, BodyContent::Text),
        vec![row("content-type", "text/plain")]
    );
}
