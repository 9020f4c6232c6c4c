use dakia::kv_data::KVData;
use dakia::query_param::QueryParam;
use dakia::query_params_ui::QueryParamsUi;
use dakia::url::{char_to_digit, decimal_string, read_port, Protocol, Url};
use dakia::url_params::{Param, UrlParams};
use dakia::utils::{string_chunks, url_with_params};

fn row(key: &str, value: &str) -> KVData {
    KVData::new(key.to_string(), value.to_string())
}

fn parsed(url: &str) -> Url {
    let mut u = Url::default();
    u.update(url.to_string());
    u
}

fn param(name: &str, value: &str) -> Param {
    let mut p = Param::default();
    p.set_name(name.to_string());
    p.set_value(value.to_string());
    p
}

#[test]
fn default_url_is_plain_http() {
    let u = Url::default();
    assert_eq!(u.protocol(), Protocol::HTTP);
    assert_eq!(u.host(), "");
    assert_eq!(u.port(), 80);
    assert_eq!(u.path(), "");
    assert_eq!(u.query_params(), &vec![row("", "")]);
    assert_eq!(u.to_string(), "http://?");
}

#[test]
fn protocol_names() {
    assert_eq!(Protocol::HTTP.to_str(), "http");
    assert_eq!(Protocol::HTTPS.to_str(), "https");
    assert_eq!(Protocol::default(), Protocol::HTTP);
}

#[test]
fn update_takes_a_bare_host() {
    let u = parsed("example.com");
    assert_eq!(u.protocol(), Protocol::HTTP);
    assert_eq!(u.host(), "example.com");
    assert_eq!(u.port(), 80);
    let v = parsed("example.com/some/thing");
    assert_eq!(v.host(), "example.com/some/thing");
    assert_eq!(v.path(), "");
}

#[test]
fn update_takes_protocol_and_host() {
    let u = parsed("http://example.com");
    assert_eq!((u.protocol(), u.host().as_str(), u.port()), (Protocol::HTTP, "example.com", 80));
    let v = parsed("https://example.com");
    assert_eq!((v.protocol(), v.host().as_str(), v.port()), (Protocol::HTTPS, "example.com", 443));
}

#[test]
fn update_takes_host_and_port() {
    let u = parsed("example.com:8080");
    assert_eq!((u.protocol(), u.host().as_str(), u.port()), (Protocol::HTTP, "example.com", 8080));
    assert_eq!(u.path(), "");
    let v = parsed("example.com:3000/some/thing");
    assert_eq!((v.host().as_str(), v.port(), v.path().as_str()), ("example.com", 3000, "/some/thing"));
}

#[test]
fn update_takes_everything() {
    let u = parsed("http://localhost:8080/api?something=else&or_maybe=something");
    assert_eq!(u.protocol(), Protocol::HTTP);
    assert_eq!(u.host(), "localhost");
    assert_eq!(u.port(), 8080);
    assert_eq!(u.path(), "/api");
    assert_eq!(u.query_params(), &vec![row("something", "else"), row("or_maybe", "something")]);
    assert_eq!(u.to_string(), "http://localhost:8080/api?something=else&or_maybe=something");
}

#[test]
fn update_takes_https_with_port_path_and_query() {
    let u = parsed("https://example.com:8443/api?x=1&&y=2");
    assert_eq!(u.protocol(), Protocol::HTTPS);
    assert_eq!(u.port(), 8443);
    assert_eq!(u.path(), "/api");
    assert_eq!(u.query_params(), &vec![row("x", "1"), row("y", "2")]);
    assert_eq!(u.to_string(), "https://example.com:8443/api?x=1&y=2");
}

#[test]
fn update_takes_query_without_port() {
    let u = parsed("http://example.com?x=1");
    assert_eq!(u.host(), "example.com");
    assert_eq!(u.port(), 80);
    assert_eq!(u.query_params(), &vec![row("x", "1")]);
    let v = parsed("example.com:8080/some/thing?some_thing=else");
    assert_eq!(v.port(), 8080);
    assert_eq!(v.path(), "/some/thing");
    assert_eq!(v.query_params(), &vec![row("some_thing", "else")]);
}

#[test]
fn update_removes_the_port_digits_from_the_path() {
    let u = parsed("example.com:80/a80");
    assert_eq!(u.port(), 80);
    assert_eq!(u.path(), "/a");
}

#[test]
fn update_keeps_the_token_as_path_where_the_digits_are_no_port() {
    let u = parsed("example.com:99999/x");
    assert_eq!(u.port(), 80);
    assert_eq!(u.path(), "99999/x");
    let v = parsed("example.com:٣/x");
    assert_eq!(v.port(), 80);
    assert_eq!(v.path(), "٣/x");
}

#[test]
fn update_with_empty_query_leaves_one_empty_param() {
    let u = parsed("example.com:8080?");
    assert_eq!(u.query_params(), &vec![row("", "")]);
}

#[test]
fn update_keeps_what_it_does_not_set() {
    let mut u = parsed("https://example.com:8443/api?x=1");
    u.update("other.org".to_string());
    assert_eq!(u.protocol(), Protocol::HTTP);
    assert_eq!(u.host(), "other.org");
    assert_eq!(u.port(), 80);
    assert_eq!(u.path(), "/api");
    assert_eq!(u.query_params(), &vec![row("x", "1")]);
}

#[test]
fn to_string_leaves_out_the_default_port() {
    let mut u = parsed("https://example.com");
    assert_eq!(u.to_string(), "https://example.com?");
    u.update("https://example.com:80".to_string());
    assert_eq!(u.to_string(), "https://example.com:80?");
}

#[test]
fn query_string_puts_ampersands_by_position() {
    let mut u = Url::default();
    u.query_params_from_str("a=1&b&c=3");
    assert_eq!(u.query_params(), &vec![row("a", "1"), row("b", ""), row("c", "3")]);
    assert_eq!(u.query_params_to_string(), "a=1&b&c=3");
    u.insert_param(0, row("", ""));
    assert_eq!(u.query_params_to_string(), "&a=1&b&c=3");
}

#[test]
fn insert_and_remove_param() {
    let mut u = Url::default();
    u.insert_param(1, row("a", "1"));
    assert_eq!(u.query_params(), &vec![row("", ""), row("a", "1")]);
    u.insert_param(5, row("x", "y"));
    assert_eq!(u.query_params().len(), 2);
    u.insert_param(1000, row("x", "y"));
    assert_eq!(u.query_params().len(), 2);
    u.remove_param(0);
    assert_eq!(u.query_params(), &vec![row("a", "1")]);
    u.remove_param(3);
    assert_eq!(u.query_params(), &vec![row("a", "1")]);
    u.remove_param(0);
    assert_eq!(u.query_params(), &vec![row("", "")]);
}

#[test]
fn url_takes_at_most_a_thousand_params() {
    let mut u = Url::default();
    for _ in 0..1005 {
        u.insert_param(0, row("a", "b"));
    }
    assert_eq!(u.query_params().len(), 1000);
}

#[test]
fn get_param_gives_the_row_to_change() {
    let mut u = parsed("example.com:80?a=1&b=2");
    match u.get_param(1) {
        Some(p) => p.set_value("9".to_string()),
        None => panic!("no parameter"),
    }
    assert_eq!(u.query_params(), &vec![row("a", "1"), row("b", "9")]);
    assert!(u.get_param(2).is_none());
    u.query_params_mut().push(row("c", "3"));
    assert_eq!(u.query_params().len(), 3);
    assert_eq!(u.clone().to_string(), "http://example.com?a=1&b=9&c=3");
}

#[test]
fn decimal_string_writes_numbers() {
    assert_eq!(decimal_string(0), "0");
    assert_eq!(decimal_string(7), "7");
    assert_eq!(decimal_string(80), "80");
    assert_eq!(decimal_string(8080), "8080");
    assert_eq!(decimal_string(65535), "65535");
}

#[test]
fn read_port_reads_numbers() {
    assert_eq!(read_port("80"), Some(80));
    assert_eq!(read_port("+80"), Some(80));
    assert_eq!(read_port("0080"), Some(80));
    assert_eq!(read_port("65535"), Some(65535));
    assert_eq!(read_port("65536"), None);
    assert_eq!(read_port("99999999999999999999"), None);
    assert_eq!(read_port(""), None);
    assert_eq!(read_port("+"), None);
    assert_eq!(read_port("8a"), None);
    assert_eq!(read_port("-1"), None);
    assert_eq!(read_port("٣"), None);
    assert_eq!(char_to_digit('7'), Some(7));
    assert_eq!(char_to_digit('a'), None);
}

#[test]
fn read_port_agrees_with_the_standard_parser() {
    for s in ["0", "1", "+1", "00", "65535", "65536", "", "+", "++1", "1+", " 1", "1 ", "12a", "x"] {
        assert_eq!(read_port(s), s.parse::<u16>().ok(), "{}", s);
    }
}

#[test]
fn url_with_params_appends_filled_params() {
    let params = vec![param("a", "1"), param("", "x"), param("b", ""), param("c", "3")];
    assert_eq!(url_with_params("http://x".to_string(), params), "http://x?a=1&c=3");
    assert_eq!(url_with_params("".to_string(), vec![param("a", "1")]), "");
    assert_eq!(url_with_params("http://x".to_string(), vec![]), "http://x");
    assert_eq!(url_with_params("http://x".to_string(), vec![param("", "")]), "http://x");
}

#[test]
fn string_chunks_cuts_by_width() {
    let s = |v: &[&str]| v.iter().map(|x| x.to_string()).collect::<Vec<String>>();
    assert_eq!(string_chunks(&"abcdefg".to_string(), 3), s(&["abc", "def", "g"]));
    assert_eq!(string_chunks(&"abcdef".to_string(), 3), s(&["abc", "def"]));
    assert_eq!(string_chunks(&"ab".to_string(), 3), s(&["ab"]));
    assert_eq!(string_chunks(&"".to_string(), 3), s(&[]));
    assert_eq!(string_chunks(&"héllo".to_string(), 2), s(&["hé", "ll", "o"]));
}

#[test]
fn url_params_table() {
    let mut t = UrlParams::default();
    assert_eq!(t.params(), &vec![param("", "")]);
    t.add_param(param("a", "1"));
    t.insert_param(0, param("z", "0"));
    assert_eq!(t.params(), &vec![param("z", "0"), param("", ""), param("a", "1")]);
    assert_eq!(t.get_param(2), &param("a", "1"));
    assert_eq!(t.get_param_name(0), "z");
    assert_eq!(t.get_param_value(2), "1");
    t.insert_param(7, param("x", "x"));
    t.insert_param(1000, param("x", "x"));
    assert_eq!(t.params().len(), 3);
    t.param_name_update(1, "n".to_string());
    t.param_value_update(1, "v".to_string());
    assert_eq!(t.get_param(1), &param("n", "v"));
    t.remove_param(5);
    t.remove_param(0);
    t.remove_param(0);
    assert_eq!(t.params(), &vec![param("a", "1")]);
    t.remove_param(0);
    assert_eq!(t.params(), &vec![param("", "")]);
    t.set_active_param_row(4);
    t.set_active_param_col(2);
    assert_eq!((t.active_param_row(), t.active_param_col()), (4, 2));
}

#[test]
fn url_params_table_takes_at_most_a_thousand() {
    let mut t = UrlParams::default();
    for _ in 0..1005 {
        t.add_param(param("a", "b"));
    }
    assert_eq!(t.params().len(), 1000);
    t.insert_param(0, param("a", "b"));
    assert_eq!(t.params().len(), 1000);
}

#[test]
fn param_accessors() {
    let p = param("n", "v");
    assert_eq!(p.clone().name(), "n");
    assert_eq!(p.value(), "v");
}

#[test]
fn query_param_reads_and_writes() {
    assert_eq!(QueryParam::from_str("a=b"), QueryParam::new("a".to_string(), "b".to_string()));
    assert_eq!(QueryParam::from_str("a=b=c"), QueryParam::new("a".to_string(), "".to_string()));
    assert_eq!(QueryParam::from_string("a".to_string()).to_string(), "a");
    assert_eq!(QueryParam::from_str(""), QueryParam::default());
    let mut q = QueryParam::default();
    q.set_name("n".to_string());
    q.set_value("v".to_string());
    assert_eq!((q.name().as_str(), q.value().as_str()), ("n", "v"));
    assert_eq!(q.to_string(), "n=v");
    assert_eq!(q.clone(), q);
    q.set_name("".to_string());
    assert_eq!(q.to_string(), "");
}

#[test]
fn query_params_ui_accessors() {
    let mut u = QueryParamsUi::default();
    assert_eq!((u.active_param_row(), u.active_param_col()), (0, 0));
    u.set_active_param_row(9);
    u.set_active_param_col(3);
    assert_eq!((u.active_param_row(), u.active_param_col()), (9, 3));
}

#[test]
fn decimal_string_agrees_with_the_standard_formatter() {
    let mut n: u32 = 0;
    while n <= 65535 {
        assert_eq!(decimal_string(n as u16), n.to_string());
        n += 13;
    }
    assert_eq!(decimal_string(65535), 65535u16.to_string());
}
