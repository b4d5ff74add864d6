use ws_proxy::dispatch::{handle_tcp_close, TcpCloseRequest};
use ws_proxy::fetch::{prepare_fetch, FetchStep};
use ws_proxy::parse::{parse_request, Request};
use ws_proxy::session::Session;

#[test]
fn malformed_json_parses_to_nothing() {
    assert!(parse_request("not-json").is_none());
}

#[test]
fn session_still_works_after_malformed_json() {
    assert!(parse_request("not-json").is_none());
    let req = match parse_request(r#"{"type":"tcp_close","id":3,"streamId":8}"#) {
        Some(Request::TcpClose(r)) => r,
        _ => panic!("a valid request must still parse"),
    };
    let mut sess = Session::new();
    let frame = handle_tcp_close(&mut sess, &req);
    assert_eq!(
        String::from_utf8(frame).unwrap(),
        r#"{"type":"tcp_close","streamId":8,"error":null}"#
    );
}

#[test]
fn unknown_type_is_dropped() {
    assert!(parse_request(r#"{"type":"ping","id":1}"#).is_none());
    assert!(parse_request(r#"{"id":1}"#).is_none());
}

#[test]
fn fetch_request_parses_in_full() {
    let text = r#"{"type":"fetch","id":1,"url":"http://test/echo","method":"POST","headers":{"x-a":"1"},"body":"aGk=","bodyEncoding":"base64"}"#;
    match parse_request(text) {
        Some(Request::Fetch(f)) => {
            assert_eq!(f.id, 1);
            assert_eq!(f.url, "http://test/echo");
            assert_eq!(f.method, Some("POST".to_string()));
            assert_eq!(f.headers, Some(vec![("x-a".to_string(), "1".to_string())]));
            assert_eq!(f.body, Some("aGk=".to_string()));
            assert_eq!(f.body_encoding, Some("base64".to_string()));
        },
        _ => panic!("expected a fetch request"),
    }
}

#[test]
fn fetch_request_validates_to_a_plan() {
    let text = r#"{"type":"fetch","id":1,"url":"http://test/echo","method":"POST","body":"aGk=","bodyEncoding":"base64"}"#;
    let req = match parse_request(text) {
        Some(Request::Fetch(f)) => f,
        _ => panic!("expected a fetch request"),
    };
    match prepare_fetch(&req) {
        FetchStep::Send(plan) => {
            assert_eq!(plan.url, "http://test/echo");
            assert_eq!(plan.body, b"hi".to_vec());
            assert_eq!(plan.method, "POST");
            assert_eq!(plan.headers, Vec::new());
        },
        FetchStep::Reply(_) => panic!("a valid request must become a plan"),
    }
}

#[test]
fn fetch_with_missing_id_is_dropped() {
    assert!(parse_request(r#"{"type":"fetch","url":"http://x"}"#).is_none());
    assert!(parse_request(r#"{"type":"fetch","id":"1","url":"http://x"}"#).is_none());
}

#[test]
fn fetch_with_non_string_header_value_is_dropped() {
    let text = r#"{"type":"fetch","id":1,"url":"http://x","headers":{"x-a":1}}"#;
    assert!(parse_request(text).is_none());
}

#[test]
fn tcp_open_parses_with_defaults() {
    match parse_request(r#"{"type":"tcp_open","id":2,"host":"localhost","port":80}"#) {
        Some(Request::TcpOpen(r)) => {
            assert_eq!(r.id, 2);
            assert_eq!(r.host, "localhost");
            assert_eq!(r.port, 80);
            assert_eq!(r.tls, None);
            assert_eq!(r.server_name, None);
            assert_eq!(r.insecure, None);
        },
        _ => panic!("expected a tcp_open request"),
    }
}

#[test]
fn tcp_open_with_oversized_port_is_dropped() {
    assert!(parse_request(r#"{"type":"tcp_open","id":2,"host":"h","port":65536}"#).is_none());
}

#[test]
fn tcp_write_parses() {
    match parse_request(
        r#"{"type":"tcp_write","id":10,"streamId":1,"data":"cGluZw==","dataEncoding":"base64"}"#,
    ) {
        Some(Request::TcpWrite(r)) => {
            assert_eq!(r.id, 10);
            assert_eq!(r.stream_id, 1);
            assert_eq!(r.data, Some("cGluZw==".to_string()));
            assert_eq!(r.data_encoding, Some("base64".to_string()));
        },
        _ => panic!("expected a tcp_write request"),
    }
}

#[test]
fn null_optional_fields_read_as_absent() {
    match parse_request(r#"{"type":"tcp_write","id":1,"streamId":2,"data":null}"#) {
        Some(Request::TcpWrite(r)) => {
            assert_eq!(r.data, None);
            assert_eq!(r.data_encoding, None);
        },
        _ => panic!("expected a tcp_write request"),
    }
}
