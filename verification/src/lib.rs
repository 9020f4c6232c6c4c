//! State and editing logic of a terminal HTTP client: a multi-line text
//! editor with selection and scrolling, key-value row lists, and the plain
//! request and response state around them.

pub mod api;
pub mod app_status;
pub mod body;
pub mod chars;
pub mod kv_data;
pub mod kv_tab;
pub mod kv_tab_state;
pub mod line_buffer;
pub mod query_param;
pub mod query_params_ui;
pub mod request_tabs;
pub mod response;
pub mod select;
pub mod state;
pub mod text_edit;
pub mod text_laws;
pub mod text_model;
pub mod url;
pub mod user_input;
pub mod url_params;
pub mod utils;
pub mod words;
